//! Recognising a hardware node that appeared as one a profile device is
//! attached to. A profile device lists the hardware it uses by ALSA name
//! and by description; the name is trusted first, the description second,
//! and whichever matched, the other is brought up to date so the next
//! appearance matches by name.

use vstd::prelude::*;
use crate::registry::opt_view;
use crate::text::str_eq;

verus! {

/// Hardware a profile device is attached to.
#[derive(Debug, Clone, Default, PartialEq, Eq, Hash)]
pub struct PhysicalDeviceDescriptor {
    pub name: Option<String>,
    pub description: Option<String>,
}

/// A physical device of the profile (a source or a target) and the
/// hardware it is attached to.
#[derive(Debug, Clone)]
pub struct PhysicalDeviceEntry {
    pub id: u128,
    pub attached_devices: Vec<PhysicalDeviceDescriptor>,
}

/// The model of a descriptor: its name and description.
pub open spec fn desc_view(d: PhysicalDeviceDescriptor) -> (Option<Seq<char>>, Option<Seq<char>>) {
    (opt_view(d.name), opt_view(d.description))
}

pub open spec fn descs_view(v: Seq<PhysicalDeviceDescriptor>) -> Seq<(Option<Seq<char>>, Option<Seq<char>>)> {
    v.map_values(|d: PhysicalDeviceDescriptor| desc_view(d))
}

pub open spec fn attached_view(e: PhysicalDeviceEntry) -> Seq<(Option<Seq<char>>, Option<Seq<char>>)> {
    descs_view(e.attached_devices@)
}

/// The model of the profile's physical devices: each one's attachments.
pub open spec fn devices_view(v: Seq<PhysicalDeviceEntry>) -> Seq<Seq<(Option<Seq<char>>, Option<Seq<char>>)>> {
    v.map_values(|e: PhysicalDeviceEntry| attached_view(e))
}

/// The first position (in order) whose element satisfies `p`.
pub open spec fn first_index<A>(s: Seq<A>, p: spec_fn(A) -> bool) -> Option<int>
    decreases s.len(),
{
    if s.len() == 0 {
        None
    } else if p(s[0]) {
        Some(0)
    } else {
        match first_index(s.drop_first(), p) {
            Some(j) => Some(j + 1),
            None => None,
        }
    }
}

/// `first_index` finds exactly the first position that satisfies `p`.
pub proof fn lemma_first_index<A>(s: Seq<A>, p: spec_fn(A) -> bool)
    ensures
        first_index(s, p) matches Some(j) ==> 0 <= j < s.len() && p(s[j]) && forall|k: int| 0 <= k < j ==> !p(#[trigger] s[k]),
        first_index(s, p) is None ==> forall|k: int| 0 <= k < s.len() ==> !p(#[trigger] s[k]),
    decreases s.len(),
{
    if s.len() > 0 {
        lemma_first_index(s.drop_first(), p);
        if !p(s[0]) {
            assert forall|k: int| 0 < k < s.len() implies s[k] == s.drop_first()[k - 1] by {}
        }
    }
}

/// A position that satisfies `p` with none before it is the first one.
pub proof fn lemma_first_index_is<A>(s: Seq<A>, p: spec_fn(A) -> bool, j: int)
    requires
        0 <= j < s.len(),
        p(s[j]),
        forall|k: int| 0 <= k < j ==> !p(#[trigger] s[k]),
    ensures
        first_index(s, p) == Some(j),
    decreases s.len(),
{
    if j > 0 {
        assert(!p(s[0]));
        assert forall|k: int| 0 <= k < j - 1 implies !p(#[trigger] s.drop_first()[k]) by {
            assert(s.drop_first()[k] == s[k + 1]);
        }
        lemma_first_index_is(s.drop_first(), p, j - 1);
    }
}

pub open spec fn has_name(name: Seq<char>) -> spec_fn((Option<Seq<char>>, Option<Seq<char>>)) -> bool {
    |d: (Option<Seq<char>>, Option<Seq<char>>)| d.0 == Some(name)
}

pub open spec fn has_description(desc: Seq<char>) -> spec_fn((Option<Seq<char>>, Option<Seq<char>>)) -> bool {
    |d: (Option<Seq<char>>, Option<Seq<char>>)| d.1 == Some(desc)
}

/// How one device matches the node: the first attachment with the node's
/// name, else the first with its description.
pub open spec fn device_match(a: Seq<(Option<Seq<char>>, Option<Seq<char>>)>, name: Option<Seq<char>>,
    desc: Option<Seq<char>>) -> Option<(int, bool)> {
    if name is Some && first_index(a, has_name(name->0)) is Some {
        Some((first_index(a, has_name(name->0))->0, true))
    } else if desc is Some && first_index(a, has_description(desc->0)) is Some {
        Some((first_index(a, has_description(desc->0))->0, false))
    } else {
        None
    }
}

pub open spec fn matches_node(name: Option<Seq<char>>, desc: Option<Seq<char>>)
    -> spec_fn(Seq<(Option<Seq<char>>, Option<Seq<char>>)>) -> bool {
    |a: Seq<(Option<Seq<char>>, Option<Seq<char>>)>| device_match(a, name, desc) is Some
}

/// The first device (in order) that matches the node: the device, the
/// attachment, and whether the name matched.
pub open spec fn attach_match(devs: Seq<Seq<(Option<Seq<char>>, Option<Seq<char>>)>>, name: Option<Seq<char>>,
    desc: Option<Seq<char>>) -> Option<(int, int, bool)> {
    match first_index(devs, matches_node(name, desc)) {
        Some(i) => Some((i, (device_match(devs[i], name, desc)->0).0, (device_match(devs[i], name, desc)->0).1)),
        None => None,
    }
}

/// The attachment after a match: a name match takes the node's
/// description, a description match the node's name.
pub open spec fn updated_attachment(d: (Option<Seq<char>>, Option<Seq<char>>), by_name: bool,
    name: Option<Seq<char>>, desc: Option<Seq<char>>) -> (Option<Seq<char>>, Option<Seq<char>>) {
    if by_name { (d.0, desc) } else { (name, d.1) }
}

/// The devices after the node was attached (unchanged when nothing matched).
pub open spec fn after_attach(devs: Seq<Seq<(Option<Seq<char>>, Option<Seq<char>>)>>, name: Option<Seq<char>>,
    desc: Option<Seq<char>>) -> Seq<Seq<(Option<Seq<char>>, Option<Seq<char>>)>> {
    match attach_match(devs, name, desc) {
        Some((i, j, by_name)) => devs.update(i, devs[i].update(j, updated_attachment(devs[i][j], by_name, name, desc))),
        None => devs,
    }
}

fn opt_eq(a: &Option<String>, b: Option<&str>) -> (r: bool)
    ensures
        r == (b is Some && opt_view(*a) == Some(b->0@)),
{
    match (a, b) {
        (Some(x), Some(y)) => str_eq(x.as_str(), y),
        _ => false,
    }
}

fn opt_string(o: Option<&str>) -> (r: Option<String>)
    ensures
        opt_view(r) == (match o { Some(s) => Some(s@), None => None::<Seq<char>> }),
{
    match o {
        Some(s) => Some(s.to_owned()),
        None => None,
    }
}

pub open spec fn opt_str_view(o: Option<&str>) -> Option<Seq<char>> {
    match o {
        Some(s) => Some(s@),
        None => None,
    }
}

/// How one device's attachments match the node (see `device_match`).
fn match_attachments(a: &Vec<PhysicalDeviceDescriptor>, name: Option<&str>, desc: Option<&str>) -> (r: Option<(usize, bool)>)
    ensures
        device_match(descs_view(a@), opt_str_view(name), opt_str_view(desc)) == (match r {
            Some((j, b)) => Some((j as int, b)),
            None => None::<(int, bool)>,
        }),
        r matches Some((j, _)) ==> j < a@.len(),
{
    let ghost av = descs_view(a@);
    if let Some(n) = name {
        let ghost p = has_name(n@);
        let mut j: usize = 0;
        while j < a.len()
            invariant
                name == Some(n),
                p == has_name(n@),
                j <= a@.len(),
                av == descs_view(a@),
                forall|k: int| 0 <= k < j ==> !p(#[trigger] av[k]),
            decreases a@.len() - j,
        {
            if opt_eq(&a[j].name, name) {
                proof { lemma_first_index_is(av, p, j as int); }
                return Some((j, true));
            }
            j = j + 1;
        }
        proof { lemma_first_index(av, p); }
    }
    if let Some(d) = desc {
        let ghost p = has_description(d@);
        let mut j: usize = 0;
        while j < a.len()
            invariant
                desc == Some(d),
                p == has_description(d@),
                j <= a@.len(),
                av == descs_view(a@),
                name is Some ==> first_index(av, has_name(opt_str_view(name)->0)) is None,
                forall|k: int| 0 <= k < j ==> !p(#[trigger] av[k]),
            decreases a@.len() - j,
        {
            if opt_eq(&a[j].description, desc) {
                proof { lemma_first_index_is(av, p, j as int); }
                return Some((j, false));
            }
            j = j + 1;
        }
        proof { lemma_first_index(av, p); }
    }
    None
}

/// A hardware node appeared. The first profile device whose attachments
/// name it (by ALSA name, else by description) takes it: the attachment is
/// brought up to date and the device's id returned, for the node to be
/// linked to it. Nothing changes when no device matches.
pub fn attach_physical_node(devices: &mut Vec<PhysicalDeviceEntry>, name: Option<&str>, desc: Option<&str>)
    -> (r: Option<u128>)
    ensures
        devices_view(final(devices)@) == after_attach(devices_view(old(devices)@), opt_str_view(name), opt_str_view(desc)),
        final(devices)@.len() == old(devices)@.len(),
        forall|i: int| 0 <= i < old(devices)@.len() ==> (#[trigger] final(devices)@[i]).id == old(devices)@[i].id,
        match attach_match(devices_view(old(devices)@), opt_str_view(name), opt_str_view(desc)) {
            Some((i, _, _)) => r == Some(old(devices)@[i].id),
            None => r is None,
        },
{
    let ghost dv = devices_view(devices@);
    let ghost p = matches_node(opt_str_view(name), opt_str_view(desc));
    let mut i: usize = 0;
    while i < devices.len()
        invariant
            i <= devices@.len(),
            devices@ == old(devices)@,
            dv == devices_view(devices@),
            p == matches_node(opt_str_view(name), opt_str_view(desc)),
            forall|k: int| 0 <= k < i ==> !p(#[trigger] dv[k]),
        decreases devices@.len() - i,
    {
        assert(dv[i as int] == attached_view(devices@[i as int]));
        let m = match_attachments(&devices[i].attached_devices, name, desc);
        if let Some((j, by_name)) = m {
            proof { lemma_first_index_is(dv, p, i as int); }
            let id = devices[i].id;
            let ghost e0 = devices@[i as int];
            let mut entry = devices.remove(i);
            let ghost after_remove = devices@;
            let old_d = entry.attached_devices.remove(j);
            let d = if by_name {
                PhysicalDeviceDescriptor { name: old_d.name, description: opt_string(desc) }
            } else {
                PhysicalDeviceDescriptor { name: opt_string(name), description: old_d.description }
            };
            entry.attached_devices.insert(j, d);
            devices.insert(i, entry);
            proof {
                let nv = opt_str_view(name);
                let dsv = opt_str_view(desc);
                assert(old_d == e0.attached_devices@[j as int]);
                assert(dv[i as int][j as int] == desc_view(old_d));
                assert(desc_view(d) == updated_attachment(dv[i as int][j as int], by_name, nv, dsv));
                assert(entry.attached_devices@ =~= e0.attached_devices@.update(j as int, d));
                assert(devices@ =~= old(devices)@.update(i as int, entry));
                assert(attach_match(dv, nv, dsv) == Some((i as int, j as int, by_name)));
                let expect = dv.update(i as int, dv[i as int].update(j as int,
                    updated_attachment(dv[i as int][j as int], by_name, nv, dsv)));
                assert(attached_view(devices@[i as int]) =~= dv[i as int].update(j as int,
                    updated_attachment(dv[i as int][j as int], by_name, nv, dsv)));
                assert(devices_view(devices@) =~= expect);
            }
            return Some(id);
        }
        i = i + 1;
    }
    proof { lemma_first_index(dv, p); }
    None
}

/// A node recognised by its description is recognised by its name the
/// next time it appears (when it has a name): the first match brought the
/// attachment's name up to date.
pub proof fn law_description_match_becomes_name_match(devs: Seq<Seq<(Option<Seq<char>>, Option<Seq<char>>)>>,
    name: Seq<char>, desc: Option<Seq<char>>)
    requires
        attach_match(devs, Some(name), desc) matches Some((_, _, by_name)) && !by_name,
    ensures
        attach_match(after_attach(devs, Some(name), desc), Some(name), desc) == (match attach_match(devs, Some(name), desc) {
            Some((i, j, _)) => Some((i, j, true)),
            None => None::<(int, int, bool)>,
        }),
{
    let m = matches_node(Some(name), desc);
    let (i, j, _) = attach_match(devs, Some(name), desc)->0;
    lemma_first_index(devs, m);
    let devs2 = after_attach(devs, Some(name), desc);
    let a = devs[i];
    let a2 = devs2[i];
    lemma_first_index(a, has_name(name));
    lemma_first_index(a, has_description(desc->0));
    assert(a2 == a.update(j, (Some(name), a[j].1)));
    assert forall|k: int| 0 <= k < j implies !has_name(name)(#[trigger] a2[k]) by {
        assert(a2[k] == a[k]);
    }
    lemma_first_index_is(a2, has_name(name), j);
    assert(m(devs2[i]));
    assert forall|k: int| 0 <= k < i implies !m(#[trigger] devs2[k]) by {
        assert(devs2[k] == devs[k]);
    }
    lemma_first_index_is(devs2, m, i);
}

/// Attaching a node a second time finds the same device and attachment
/// and changes nothing more.
pub proof fn law_attach_is_stable(devs: Seq<Seq<(Option<Seq<char>>, Option<Seq<char>>)>>,
    name: Option<Seq<char>>, desc: Option<Seq<char>>)
    requires
        attach_match(devs, name, desc) is Some,
        name is Some,
    ensures
        after_attach(after_attach(devs, name, desc), name, desc) == after_attach(devs, name, desc),
{
    let m = matches_node(name, desc);
    let (i, j, by_name) = attach_match(devs, name, desc)->0;
    lemma_first_index(devs, m);
    let devs2 = after_attach(devs, name, desc);
    let a = devs[i];
    let a2 = devs2[i];
    lemma_first_index(a, has_name(name->0));
    if !by_name {
        lemma_first_index(a, has_description(desc->0));
        law_description_match_becomes_name_match(devs, name->0, desc);
        assert(a[j].1 == desc);
    } else {
        assert(a2 == a.update(j, (a[j].0, desc)));
        assert forall|k: int| 0 <= k < j implies !has_name(name->0)(#[trigger] a2[k]) by {
            assert(a2[k] == a[k]);
        }
        lemma_first_index_is(a2, has_name(name->0), j);
        assert(m(devs2[i]));
        assert forall|k: int| 0 <= k < i implies !m(#[trigger] devs2[k]) by {
            assert(devs2[k] == devs[k]);
        }
        lemma_first_index_is(devs2, m, i);
    }
    let devs3 = after_attach(devs2, name, desc);
    assert(devs3[i] =~= devs2[i]);
    assert(devs3 =~= devs2);
}

} // verus!
