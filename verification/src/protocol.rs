//! Protocols (named sets of message ids) and protocol sets.
use vstd::prelude::*;
use crate::an_id::AnId;
use crate::msgs::{ECHO_COMPLETE_ID, ECHO_REPLY_ID, ECHO_REQ_ID, ECHO_START_ID};
use std::collections::HashMap;

verus! {

/// A protocol: a name, an id, and the ids of the messages it is made of.
#[derive(PartialEq, Eq, Debug)]
pub struct Protocol {
    pub name: String,
    pub id: AnId,
    pub messages: Vec<AnId>,
}

impl Clone for Protocol {
    fn clone(&self) -> (r: Protocol)
        ensures
            r.name@ == self.name@,
            r.id == self.id,
            r.messages@ == self.messages@,
    {
        let messages = self.messages.clone();
        assert(messages@ =~= self.messages@);
        Protocol { name: self.name.clone(), id: self.id, messages }
    }
}

impl Protocol {
    /// The protocol `name` with id `id` made of `messages`.
    pub fn new(name: &str, id: AnId, messages: Vec<AnId>) -> (p: Protocol)
        ensures
            p.name@ == name@,
            p.id == id,
            p.messages@ == messages@,
    {
        Protocol { name: String::from_str(name), id, messages }
    }
}

/// The id of a protocol set.
#[derive(Clone, Copy, PartialEq, Eq, Hash, Debug, Structural)]
pub struct ProtocolSetId(pub AnId);

/// A named set of protocols, keyed by the value of each protocol's id.
#[derive(Debug)]
pub struct ProtocolSet {
    /// Name of this ProtocolSet
    pub name: String,
    /// Id for this ProtocolSet
    pub id: ProtocolSetId,
    /// Map from the value of a protocol id to the protocol
    pub protocols_map: HashMap<u128, Protocol>,
}

impl Clone for ProtocolSet {
    fn clone(&self) -> (r: ProtocolSet)
        ensures
            r.name@ == self.name@,
            r.id == self.id,
            r.protocols_map@ == self.protocols_map@,
    {
        ProtocolSet {
            name: self.name.clone(),
            id: self.id,
            protocols_map: self.protocols_map.clone(),
        }
    }
}

impl ProtocolSet {
    /// The protocol set `name` with id `id` holding `protocols_map`.
    pub fn new(name: &str, id: ProtocolSetId, protocols_map: HashMap<u128, Protocol>) -> (ps:
        ProtocolSet)
        ensures
            ps.name@ == name@,
            ps.id == id,
            ps.protocols_map@ == protocols_map@,
    {
        ProtocolSet { name: String::from_str(name), id, protocols_map }
    }
}

/// A protocol record: a protocol made of sub protocols, each with the ids
/// of its messages.
#[derive(Debug)]
pub struct ProtocolRec {
    name: String,
    id: AnId,
    protocols: Vec<AnId>,
    messages: HashMap<u128, Vec<AnId>>,
}

impl ProtocolRec {
    pub closed spec fn spec_name(&self) -> Seq<char> {
        self.name@
    }

    pub closed spec fn spec_id(&self) -> AnId {
        self.id
    }

    pub closed spec fn spec_protocols(&self) -> Seq<AnId> {
        self.protocols@
    }

    /// The message ids of each sub protocol, keyed by the sub protocol's id.
    pub closed spec fn spec_messages(&self) -> Map<u128, Seq<AnId>> {
        Map::new(|k: u128| self.messages@.contains_key(k), |k: u128| self.messages@[k]@)
    }

    /// A protocol record.
    pub fn new(name: &str, id: AnId, protocols: Vec<AnId>, messages: HashMap<u128, Vec<AnId>>) -> (r:
        ProtocolRec)
        ensures
            r.spec_name() == name@,
            r.spec_id() == id,
            r.spec_protocols() == protocols@,
            r.spec_messages() == Map::new(
                |k: u128| messages@.contains_key(k),
                |k: u128| messages@[k]@,
            ),
    {
        ProtocolRec { name: String::from_str(name), id, protocols, messages }
    }

    pub fn id(&self) -> (r: &AnId)
        ensures
            *r == self.spec_id(),
    {
        &self.id
    }

    pub fn name(&self) -> (r: &str)
        ensures
            r@ == self.spec_name(),
    {
        self.name.as_str()
    }

    pub fn protocols(&self) -> (r: &Vec<AnId>)
        ensures
            r@ == self.spec_protocols(),
    {
        &self.protocols
    }

    /// The message ids of the sub protocol `id`, if it is one of them.
    pub fn messages(&self, id: &AnId) -> (r: Option<&Vec<AnId>>)
        ensures
            match r {
                Some(v) => self.spec_messages().contains_key(id.0) && v@ == self.spec_messages()[id.0],
                None => !self.spec_messages().contains_key(id.0),
            },
    {
        broadcast use vstd::std_specs::hash::group_hash_axioms;
        self.messages.get(&id.0)
    }
}

/// Id of the echo protocol.
pub const ECHO_PROTOCOL_ID: u128 = 0x2084ca39_77f0_4ba0_b3f9_693f529e727b;
/// Name of the echo protocol.
pub const ECHO_PROTOCOL_NAME: &'static str = "echo_protocol";

/// The message ids of the echo protocol, in order.
pub open spec fn echo_protocol_messages() -> Seq<AnId> {
    seq![AnId(ECHO_START_ID), AnId(ECHO_REQ_ID), AnId(ECHO_REPLY_ID), AnId(ECHO_COMPLETE_ID)]
}

/// The echo protocol: one sub protocol, itself, made of `EchoStart`,
/// `EchoReq`, `EchoReply` and `EchoComplete`.
pub fn echo_protocol() -> (p: ProtocolRec)
    ensures
        p.spec_name() == ECHO_PROTOCOL_NAME@,
        p.spec_id() == AnId(ECHO_PROTOCOL_ID),
        p.spec_protocols() == seq![AnId(ECHO_PROTOCOL_ID)],
        p.spec_messages() == map![ECHO_PROTOCOL_ID => echo_protocol_messages()],
{
    broadcast use vstd::std_specs::hash::group_hash_axioms;
    let messages: Vec<AnId> = vec![AnId(ECHO_START_ID), AnId(ECHO_REQ_ID), AnId(ECHO_REPLY_ID), AnId(ECHO_COMPLETE_ID)];
    let mut hm: HashMap<u128, Vec<AnId>> = HashMap::new();
    hm.insert(ECHO_PROTOCOL_ID, messages);
    let protocols: Vec<AnId> = vec![AnId(ECHO_PROTOCOL_ID)];
    let r = ProtocolRec::new(ECHO_PROTOCOL_NAME, AnId(ECHO_PROTOCOL_ID), protocols, hm);
    assert(r.spec_messages() =~= map![ECHO_PROTOCOL_ID => echo_protocol_messages()]);
    assert(r.spec_protocols() =~= seq![AnId(ECHO_PROTOCOL_ID)]);
    r
}

/// Id of the echo request/reply protocol (the same value as the echo
/// protocol's).
pub const ECHO_REQ_REPLY_PROTOCOL_ID: u128 = 0x2084ca39_77f0_4ba0_b3f9_693f529e727b;
pub const ECHO_REQ_REPLY_PROTOCOL_NAME: &'static str = "echo_req_reply_protocol";

/// The protocol of `EchoReq` and `EchoReply`.
pub fn echo_req_reply_protocol() -> (p: Protocol)
    ensures
        p.name@ == ECHO_REQ_REPLY_PROTOCOL_NAME@,
        p.id == AnId(ECHO_REQ_REPLY_PROTOCOL_ID),
        p.messages@ == seq![AnId(ECHO_REQ_ID), AnId(ECHO_REPLY_ID)],
{
    let messages: Vec<AnId> = vec![AnId(ECHO_REQ_ID), AnId(ECHO_REPLY_ID)];
    let p = Protocol::new(ECHO_REQ_REPLY_PROTOCOL_NAME, AnId(ECHO_REQ_REPLY_PROTOCOL_ID), messages);
    assert(p.messages@ =~= seq![AnId(ECHO_REQ_ID), AnId(ECHO_REPLY_ID)]);
    p
}

/// Id of the protocol of entities that answer echo requests.
pub const ECHO_REQUESTEE_PROTOCOL_ID: u128 = 0x16e9c5a6_cf3f_4813_b0e2_1c3c54058183;
pub const ECHO_REQUESTEE_PROTOCOL_NAME: &'static str = "echo_requestee_protocol";

/// The protocol of entities that answer `EchoReq` with `EchoReply`.
pub fn echo_requestee_protocol() -> (p: Protocol)
    ensures
        p.name@ == ECHO_REQUESTEE_PROTOCOL_NAME@,
        p.id == AnId(ECHO_REQUESTEE_PROTOCOL_ID),
        p.messages@ == seq![AnId(ECHO_REQ_ID), AnId(ECHO_REPLY_ID)],
{
    let messages: Vec<AnId> = vec![AnId(ECHO_REQ_ID), AnId(ECHO_REPLY_ID)];
    let p = Protocol::new(ECHO_REQUESTEE_PROTOCOL_NAME, AnId(ECHO_REQUESTEE_PROTOCOL_ID), messages);
    assert(p.messages@ =~= seq![AnId(ECHO_REQ_ID), AnId(ECHO_REPLY_ID)]);
    p
}

} // verus!
