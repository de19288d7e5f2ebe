//! Answers to the two queries that wait for the network.
//!
//! Asking for the rendezvous servers or for the NAT type means awaiting a
//! round trip, which the caller does on a runtime it builds for that one
//! call. When the runtime cannot be built there is no answer, and the host
//! is given a fixed fallback instead of a failure. What the host receives in
//! either case is decided here.

use crate::json::{
    json_array, json_bool, json_object, json_object_insert, json_object_new, json_of,
    json_string, json_text, json_to_string, jsons_of, no_entries, Json,
};
use crate::strings::{carries, lemma_terminator_is_nul, to_c_string, BridgeString};
use vstd::prelude::*;

verus! {

/// The answer to a rendezvous query.
pub struct RendezvousInfo {
    /// The rendezvous server in use.
    pub server: String,
    /// The other known rendezvous servers.
    pub servers: Vec<String>,
    /// Whether the server in use is a public one.
    pub is_public: bool,
}

/// A [`RendezvousInfo`] as a mathematical value.
pub struct RendezvousView {
    pub server: Seq<char>,
    pub servers: Seq<Seq<char>>,
    pub is_public: bool,
}

impl View for RendezvousInfo {
    type V = RendezvousView;

    open spec fn view(&self) -> RendezvousView {
        RendezvousView {
            server: self.server@,
            servers: self.servers@.map_values(|name: String| name@),
            is_public: self.is_public,
        }
    }
}

/// What stands in for the answer when the query could not be awaited: no
/// server, no servers, not public.
pub open spec fn no_answer() -> RendezvousView {
    RendezvousView { server: Seq::empty(), servers: Seq::empty(), is_public: false }
}

/// The answer that the host is told: the one that came, or the fallback.
pub open spec fn answer_or_fallback(answer: Option<RendezvousInfo>) -> RendezvousView {
    match answer {
        Some(info) => info@,
        None => no_answer(),
    }
}

/// The JSON object that reports `info`: the string `server`, the array of
/// strings `servers` and the boolean `is_public`.
pub open spec fn rendezvous_document(info: RendezvousView) -> Json {
    Json::Object(
        no_entries().insert("server"@, Json::Text(info.server)).insert(
            "servers"@,
            Json::List(info.servers.map_values(|name: Seq<char>| Json::Text(name))),
        ).insert("is_public"@, Json::Bool(info.is_public)),
    )
}

impl RendezvousInfo {
    /// The fallback answer.
    pub fn fallback() -> (info: RendezvousInfo)
        ensures
            info@ == no_answer(),
    {
        let info = RendezvousInfo { server: String::new(), servers: Vec::new(), is_public: false };
        assert(info.servers@.map_values(|name: String| name@) =~= Seq::<Seq<char>>::empty());
        info
    }
}

/// Writes the JSON payload that reports `info`.
pub fn rendezvous_payload(info: &RendezvousInfo) -> (text: String)
    ensures
        text@ == json_text(rendezvous_document(info@)),
        !text@.contains('\0'),
{
    let mut names: Vec<serde_json::Value> = Vec::new();
    let mut i: usize = 0;
    while i < info.servers.len()
        invariant
            i <= info.servers.len(),
            names.len() == i,
            forall|k: int| 0 <= k < i ==> json_of(#[trigger] names@[k]) == Json::Text(info.servers@[k]@),
        decreases info.servers.len() - i,
    {
        names.push(json_string(&info.servers[i]));
        i += 1;
    }
    assert(jsons_of(names@) =~= info@.servers.map_values(|name: Seq<char>| Json::Text(name)));
    let mut object = json_object_new();
    json_object_insert(&mut object, "server", json_string(&info.server));
    json_object_insert(&mut object, "servers", json_array(names));
    json_object_insert(&mut object, "is_public", json_bool(info.is_public));
    let document = json_object(object);
    json_to_string(&document)
}

/// The rendezvous payload as the host receives it.
///
/// `answer` is what the awaited query brought, if it could be awaited at
/// all. Without an answer the payload reports the fallback. The payload
/// never holds a terminator, so the host always receives a string.
pub fn rd_get_rendezvous_server(answer: Option<RendezvousInfo>) -> (r: Option<BridgeString>)
    ensures
        r is Some,
        carries(r, json_text(rendezvous_document(answer_or_fallback(answer)))),
{
    let info = match answer {
        Some(info) => info,
        None => RendezvousInfo::fallback(),
    };
    let payload = rendezvous_payload(&info);
    proof {
        lemma_terminator_is_nul(payload@);
    }
    to_c_string(payload)
}

/// The NAT type code as the host receives it: the code that the awaited
/// query brought, or -1 if it could not be awaited.
pub fn rd_get_nat_type(answer: Option<i32>) -> (code: i32)
    ensures
        code == (match answer {
            Some(found) => found,
            None => -1i32,
        }),
{
    match answer {
        Some(found) => found,
        None => -1,
    }
}

} // verus!
