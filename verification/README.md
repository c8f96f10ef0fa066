# pipeweaver

The bookkeeping core of an audio-routing daemon built on PipeWire, written
in Verus with its behaviour stated in contracts and proved.

`src/` is the verified library:

- `shared`, `media`, `events`, `daemon`: the value types the daemon, its
  profile and its PipeWire layer exchange; colour parsing; media classes;
  the grace period a newly found device waits out before it is used.
- `text`: the string reads and writes the parsers need (decimal numbers,
  field splitting).
- `registry`: reading PipeWire registry properties into records (devices,
  device nodes, clients, streams, links, factories, ports).
- `default_device`: the configured and the current default sink/source.
- `store`: what the PipeWire thread knows and decides — which registry
  globals to follow, which hardware nodes and application streams to
  announce and when, the links it
  creates channel by channel, the metadata it reads and writes, removals.
- `routing`, `profile`, `layout`: the profile's routing table, the
  attachment of hardware to profile devices, and the device layouts a
  profile starts from (device ids are ULIDs, through the `ulid` crate).
- `id_map`: the finite maps the store is built from.
- `json`: the one JSON read the session metadata needs (through
  `serde_json`).

`app/` holds what stays outside: the serialisable forms of the shared
values, the profile with its floating-point volume links, volume
conversions, and the layer that feeds PipeWire callbacks to the store and
turns its decisions into requests for the PipeWire connection.

`tests/` exercises the library on concrete values.
