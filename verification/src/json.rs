//! The one JSON read the session metadata needs: a string stored under a
//! key of a JSON object, as in `{"name": "..."}`.

use vstd::prelude::*;
use crate::registry::opt_view;

verus! {

/// The string that `serde_json` finds under `key` in the JSON text, when
/// the text parses as JSON, is an object, and holds a string there; `None`
/// otherwise.
pub uninterp spec fn json_string_at(text: Seq<char>, key: Seq<char>) -> Option<Seq<char>>;

/// Parses `text` with `serde_json::from_str::<serde_json::Value>`, then
/// takes `Value::get(key)` and `Value::as_str` of it. The contract only
/// names the result: it is what serde_json's parser and accessors give for
/// this text and key, and depends on them alone. Nothing is stated of which
/// texts parse.
#[verifier::external_body]
pub(crate) fn json_string_field(text: &str, key: &str) -> (r: Option<String>)
    ensures
        opt_view(r) == json_string_at(text@, key@),
{
    let value = match serde_json::from_str::<serde_json::Value>(text) {
        Ok(v) => v,
        Err(_) => return None,
    };
    match value.get(key) {
        Some(n) => match n.as_str() {
            Some(s) => Some(s.to_owned()),
            None => None,
        },
        None => None,
    }
}

} // verus!
