//! The configuration options as one JSON payload.

use crate::json::{has_entry, object_text, options_to_string, walk_of, walked, Entry};
use crate::strings::{carries, lemma_terminator_is_nul, to_c_string, BridgeString};
use std::collections::HashMap;
use vstd::prelude::*;

verus! {

/// The payload that the host is given once the options have been through
/// the JSON writer: the text written, or `{}` should the writer fail.
pub open spec fn options_text(written: Result<String, serde_json::Error>) -> Seq<char> {
    match written {
        Ok(text) => text@,
        Err(_) => "{}"@,
    }
}

/// Settles the outcome of writing the options as JSON.
pub fn options_payload(written: Result<String, serde_json::Error>) -> (payload: String)
    ensures
        payload@ == options_text(written),
{
    match written {
        Ok(text) => text,
        Err(_) => "{}".to_string(),
    }
}

/// All configuration options as the host receives them: a JSON object from
/// option names to option values, in a bridge string.
///
/// The object holds every option once and nothing else. `serde_json` writes
/// the entries in the order in which it walks the map, so the text is the
/// one written for some walk of the options; a store with at most one option
/// has only one walk. The payload never holds a terminator, so the host
/// always receives a string, and for an empty store it reads `{}`.
pub fn rd_get_all_options(options: &HashMap<String, String>) -> (r: Option<BridgeString>)
    ensures
        r is Some,
        exists|walk: Seq<Entry>| walk_of(walk, options@) && carries(r, #[trigger] object_text(walk)),
        options@.is_empty() ==> carries(r, "{}"@),
{
    let written = options_to_string(options);
    let ghost walk = choose|walk: Seq<Entry>|
        walked(written, options@, walk, #[trigger] object_text(walk));
    let payload = options_payload(written);
    proof {
        lemma_terminator_is_nul(payload@);
    }
    let r = to_c_string(payload);
    assert(walk_of(walk, options@) && carries(r, object_text(walk)));
    r
}

/// A store with a single option has a single walk: the payload of such a
/// store is fixed by the option alone.
pub proof fn lemma_walk_of_one_option(options: Map<String, String>, key: String, walk: Seq<Entry>)
    requires
        options.contains_key(key),
        forall|other: String| #[trigger] options.contains_key(other) ==> other@ == key@,
        walk_of(walk, options),
    ensures
        walk == seq![Entry { key: key@, value: options[key]@ }],
{
    let only = Entry { key: key@, value: options[key]@ };
    assert(walk.contains(only));
    let at = choose|at: int| 0 <= at < walk.len() && walk[at] == only;
    if walk.len() > 1 {
        let i: int = if at == 0 { 1 } else { 0 };
        assert(has_entry(options, walk[i]));
        if i < at {
            assert(walk[i].key != walk[at].key);
        } else {
            assert(walk[at].key != walk[i].key);
        }
    }
    assert(walk =~= seq![only]);
}

} // verus!
