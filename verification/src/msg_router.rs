//! Message routers between processes. A dispatcher reads frames from a
//! byte stream, finds the deserializer registered for the message id at the
//! start of each frame's JSON text, and hands the message on; a forwarder
//! takes messages from a channel, finds the serializer registered for each
//! message's id, and writes the JSON text as a frame.
use vstd::prelude::*;
use std::collections::HashMap;
use vstd::hash_map::StringHashMap;
use vstd::string::StringSliceAdditionalSpecFns;
use crate::actor::Actor;
use crate::an_id::{is_random_uuid, uuid_str, AnId};
use crate::con_mgr::{
    ConMgrRegisterActorReq, ConMgrRegisterActorRsp, ConMgrRegisterActorStatus,
    CON_MGR_REGISTER_ACTOR_REQ_ID, CON_MGR_REGISTER_ACTOR_RSP_ID,
};
use crate::framing::{frame_msg_buf, frame_of, get_msg_id_str_from_buf, msg_id_bytes, FrameError};
use crate::msg_header::MsgHeader;
use crate::msgs::{
    CmdInit, EchoReq, EchoRsp, InsertKeyMsgIdValueFromSerdeJsonBufRsp,
    InsertKeyMsgIdValueFromSerdeJsonBufRspStatus, InsertKeyMsgIdValueToSerdeJsonBufRsp,
    InsertKeyMsgIdValueToSerdeJsonBufRspStatus, MsgRouterForwarderActorSenderRsp, CMD_INIT_ID,
    ECHO_REQ_ID, ECHO_RSP_ID, INSERT_KEY_MSG_ID_VALUE_FROM_SERDE_JSON_BUF_RSP_ID,
    INSERT_KEY_MSG_ID_VALUE_TO_SERDE_JSON_BUF_RSP_ID, MSG_ROUTER_FORWARDER_ACTOR_SENDER_RSP_ID,
};
use crate::protocol::{Protocol, ProtocolSet, ProtocolSetId};
use crate::state_info::StateInfo;

verus! {

broadcast use vstd::std_specs::hash::group_hash_axioms;

// ---------------------------------------------------------------------------
// Tables

/// The deserializers of a dispatcher, keyed by the text form of a message id.
#[verifier::reject_recursive_types(F)]
pub struct DeserializerTable<F> {
    pub map: StringHashMap<F>,
}

impl<F> DeserializerTable<F> {
    pub open spec fn view(&self) -> Map<Seq<char>, F> {
        self.map@
    }

    /// An empty table.
    pub fn new() -> (t: Self)
        ensures
            t.view() == Map::<Seq<char>, F>::empty(),
    {
        DeserializerTable { map: StringHashMap::new() }
    }

    /// Adds `f` as the deserializer of the messages with id `msg_id`, unless
    /// one is there already; true when it was added.
    pub fn insert_if_vacant(&mut self, msg_id: AnId, f: F) -> (added: bool)
        ensures
            added == !old(self).view().contains_key(uuid_str(msg_id.0)),
            final(self).view() == after_insert_if_vacant(old(self).view(), uuid_str(msg_id.0), f),
            final(self).view().dom() == old(self).view().dom().insert(uuid_str(msg_id.0)),
            forall|j: Seq<char>| #[trigger] old(self).view().contains_key(j) ==> final(self).view()[j]
                == old(self).view()[j],
            added ==> final(self).view()[uuid_str(msg_id.0)] == f,
    {
        let key = msg_id.to_string();
        if self.map.contains_key(key.as_str()) {
            false
        } else {
            self.map.insert(key, f);
            true
        }
    }

    /// The deserializer of the message whose serde JSON text is `buf`,
    /// found by the message id at its start.
    pub fn lookup(&self, buf: &[u8]) -> (r: Option<&F>)
        ensures
            match msg_id_key(buf@) {
                Some(k) => r == (if self.view().contains_key(k) {
                    Some(&self.view()[k])
                } else {
                    None::<&F>
                }),
                None => r is None,
            },
    {
        match get_msg_id_str_from_buf(buf) {
            Some(id) => {
                proof {
                    vstd::utf8::encode_utf8_decode_utf8(id@);
                    vstd::utf8::encode_utf8_valid_utf8(id@);
                }
                self.map.get(id)
            },
            None => None,
        }
    }
}

/// The message id at the start of the serde JSON text `buf`, as text; `None`
/// where there is none or its bytes are not valid UTF-8.
pub open spec fn msg_id_key(buf: Seq<u8>) -> Option<Seq<char>> {
    match msg_id_bytes(buf) {
        Some(b) => if vstd::utf8::valid_utf8(b) {
            Some(vstd::utf8::decode_utf8(b))
        } else {
            None
        },
        None => None,
    }
}

/// The serializers of a forwarder, keyed by the value of a message id.
#[verifier::reject_recursive_types(F)]
#[derive(Debug)]
pub struct SerializerTable<F> {
    pub map: HashMap<u128, F>,
}

impl<F> SerializerTable<F> {
    pub open spec fn view(&self) -> Map<u128, F> {
        self.map@
    }

    /// An empty table.
    pub fn new() -> (t: Self)
        ensures
            t.view() == Map::<u128, F>::empty(),
    {
        SerializerTable { map: HashMap::new() }
    }

    /// Adds `f` as the serializer of the messages with id `msg_id`, unless
    /// one is there already; true when it was added.
    pub fn insert_if_vacant(&mut self, msg_id: AnId, f: F) -> (added: bool)
        ensures
            added == !old(self).view().contains_key(msg_id.0),
            final(self).view() == after_insert_if_vacant(old(self).view(), msg_id.0, f),
            final(self).view().dom() == old(self).view().dom().insert(msg_id.0),
            forall|j: u128| #[trigger] old(self).view().contains_key(j) ==> final(self).view()[j]
                == old(self).view()[j],
            added ==> final(self).view()[msg_id.0] == f,
    {
        if self.map.contains_key(&msg_id.0) {
            false
        } else {
            self.map.insert(msg_id.0, f);
            true
        }
    }

    /// The serializer of the messages with id `msg_id`.
    pub fn lookup(&self, msg_id: &AnId) -> (r: Option<&F>)
        ensures
            match r {
                Some(f) => self.view().contains_key(msg_id.0) && *f == self.view()[msg_id.0],
                None => !self.view().contains_key(msg_id.0),
            },
    {
        self.map.get(&msg_id.0)
    }
}

/// The frame that a forwarder writes for a message whose serializer gave
/// `serialized`: `None` where there was no text; otherwise the framed text,
/// or `MsgTooLong` where it is longer than a frame can hold.
pub fn frame_serialized(serialized: Option<Vec<u8>>) -> (r: Option<Result<Vec<u8>, FrameError>>)
    ensures
        match serialized {
            None => r is None,
            Some(buf) => {
                &&& r is Some
                &&& buf@.len() > u16::MAX ==> r == Some(Err::<Vec<u8>, FrameError>(FrameError::MsgTooLong))
                &&& buf@.len() <= u16::MAX ==> (r->Some_0 matches Ok(f) && f@ == frame_of(buf@))
            },
        },
{
    match serialized {
        None => None,
        Some(buf) => Some(frame_msg_buf(buf.as_slice())),
    }
}

/// The table `t` after `insert_if_vacant` of `f` under `k`.
pub open spec fn after_insert_if_vacant<K, F>(t: Map<K, F>, k: K, f: F) -> Map<K, F> {
    if t.contains_key(k) {
        t
    } else {
        t.insert(k, f)
    }
}

/// After a registration under `k`, the table holds an entry for `k`: the
/// first one ever registered, which later registrations do not replace.
pub proof fn lemma_first_registration_wins<K, F>(t: Map<K, F>, k: K, f: F, g: F)
    ensures
        after_insert_if_vacant(t, k, f).contains_key(k),
        after_insert_if_vacant(t, k, f)[k] == (if t.contains_key(k) { t[k] } else { f }),
        after_insert_if_vacant(after_insert_if_vacant(t, k, f), k, g) == after_insert_if_vacant(t, k, f),
{
}

/// Registering `f` under `k` adds at most the one entry for `k`: the keys
/// afterwards are those before and `k`, every entry there before stays as
/// it was, and the entry for `k` is `f` where `k` was vacant.
pub proof fn lemma_insert_if_vacant_adds_one_entry<K, F>(t: Map<K, F>, k: K, f: F)
    ensures
        after_insert_if_vacant(t, k, f).dom() == t.dom().insert(k),
        forall|j: K| #[trigger] t.contains_key(j) ==> after_insert_if_vacant(t, k, f)[j] == t[j],
        !t.contains_key(k) ==> after_insert_if_vacant(t, k, f)[k] == f,
{
    assert(after_insert_if_vacant(t, k, f).dom() =~= t.dom().insert(k));
}

/// Registering deserializers for two different message ids keeps both: a
/// message with either id finds its own.
pub proof fn lemma_two_registrations_both_found<K, F>(t: Map<K, F>, k1: K, f1: F, k2: K, f2: F)
    requires
        k1 != k2,
        !t.contains_key(k1),
        !t.contains_key(k2),
    ensures
        ({
            let t2 = after_insert_if_vacant(after_insert_if_vacant(t, k1, f1), k2, f2);
            &&& t2.contains_key(k1) && t2[k1] == f1
            &&& t2.contains_key(k2) && t2[k2] == f2
        }),
{
    lemma_insert_if_vacant_adds_one_entry(t, k1, f1);
    lemma_insert_if_vacant_adds_one_entry(after_insert_if_vacant(t, k1, f1), k2, f2);
    assert(after_insert_if_vacant(t, k1, f1).contains_key(k1));
}

/// A dispatcher finds, for a message whose text starts with the id `msg_id`,
/// the deserializer registered for `msg_id`.
pub proof fn lemma_dispatch_finds_registered<F>(t: Map<Seq<char>, F>, msg_id: AnId, f: F, buf: Seq<u8>)
    requires
        msg_id_key(buf) == Some(uuid_str(msg_id.0)),
    ensures
        ({
            let t2 = after_insert_if_vacant(t, uuid_str(msg_id.0), f);
            &&& msg_id_key(buf) matches Some(k) && t2.contains_key(k)
            &&& t2[uuid_str(msg_id.0)] == (if t.contains_key(uuid_str(msg_id.0)) {
                t[uuid_str(msg_id.0)]
            } else {
                f
            })
        }),
{
}

// ---------------------------------------------------------------------------
// Dispatcher

/// Actor id of every dispatcher.
pub const MSG_ROUTER_DISPATCHER_ACTOR_ID: u128 = 0xc9079a70_d7d6_465c_96bb_3bd0a6b24294;
/// Protocol set id of every dispatcher.
pub const MSG_ROUTER_DISPATCHER_PROTOCOL_SET_ID: u128 = 0xd285f0a1_2b71_414e_935d_2559d4a02c3c;
/// Name of every dispatcher's protocol set.
pub const MSG_ROUTER_DISPATCHER_PROTOCOL_SET_NAME: &'static str = "msg_router_ps";

/// The states of a router.
#[derive(Clone, Copy, PartialEq, Eq, Debug, Structural)]
pub enum RouterState {
    State0,
}

/// The name of the channel of the router `name`: `<name>_chnl`.
pub open spec fn chnl_name(name: Seq<char>) -> Seq<char> {
    name + "_chnl"@
}

/// What a dispatcher can receive.
pub enum DispatcherMsg<F> {
    InsertKeyReq { msg_id: AnId, from_serde_json_buf: F },
    EchoReq(EchoReq),
    CmdInit(CmdInit),
    ConMgrRegisterActorRsp(ConMgrRegisterActorRsp),
    Other(MsgHeader),
}

/// What a dispatcher does.
#[derive(Debug)]
pub enum DispatcherAction {
    /// Send to the sender of the message being handled.
    SendInsertRspToDst(InsertKeyMsgIdValueFromSerdeJsonBufRsp),
    /// Send to the sender of the message being handled.
    SendEchoRspToDst(EchoRsp),
    /// Send to the connection manager.
    SendToConMgr(ConMgrRegisterActorReq),
    /// Start reading frames from the dispatcher's address.
    StartDeserializer,
    Nothing,
}

/// The checks a router makes of a message: its id is that of its kind, and
/// a registration answer reports success.
pub open spec fn router_header_ok(id: AnId, expected: u128) -> bool {
    id == AnId(expected)
}

pub open spec fn dispatcher_msg_ok<F>(msg: DispatcherMsg<F>) -> bool {
    match msg {
        DispatcherMsg::EchoReq(m) => router_header_ok(m.header.msg_id, ECHO_REQ_ID),
        DispatcherMsg::CmdInit(m) => router_header_ok(m.header.msg_id, CMD_INIT_ID),
        DispatcherMsg::ConMgrRegisterActorRsp(m) => router_header_ok(
            m.header.msg_id,
            CON_MGR_REGISTER_ACTOR_RSP_ID,
        ) && m.status == ConMgrRegisterActorStatus::Success,
        _ => true,
    }
}

/// The registration request a router with these ids sends on `CmdInit`
/// from `src`.
pub open spec fn router_registration(
    r: ConMgrRegisterActorReq,
    src: AnId,
    instance_id: AnId,
    name: Seq<char>,
    actor_id: AnId,
    ps: ProtocolSet,
) -> bool {
    &&& r.header == MsgHeader::spec_new(AnId(CON_MGR_REGISTER_ACTOR_REQ_ID), src, instance_id)
    &&& r.name@ == name
    &&& r.id == actor_id
    &&& r.instance_id == instance_id
    &&& r.protocol_set.name@ == ps.name@
    &&& r.protocol_set.id == ps.id
    &&& r.protocol_set.protocols_map@ == ps.protocols_map@
}

/// The answer to an `EchoReq` that a router with instance id `instance_id`
/// sends to `dst`.
pub open spec fn echo_answer(r: EchoRsp, req: EchoReq, dst: AnId, instance_id: AnId) -> bool {
    &&& r.header == MsgHeader::spec_new(AnId(ECHO_RSP_ID), dst, instance_id)
    &&& r.req_timestamp_ns == req.req_timestamp_ns
    &&& r.counter == req.counter
    &&& r.rsp_timestamp_ns >= 0
}

/// A dispatcher: an actor that owns a table of deserializers and, once
/// registered with the connection manager, reads frames from `addr`.
#[verifier::reject_recursive_types(F)]
pub struct MsgRouterDispatcher<F> {
    pub name: String,
    pub actor_id: AnId,
    pub instance_id: AnId,
    pub protocol_set: ProtocolSet,
    pub current_state: RouterState,
    pub chnl_name: String,
    /// Address of the listener the deserializer reads from.
    pub addr: String,
    pub table: DeserializerTable<F>,
}

impl<F> MsgRouterDispatcher<F> {
    /// A dispatcher named `name` that will listen at `addr`, with a new
    /// random instance id and an empty table. Its protocol set is
    /// `msg_router_ps`, made of the protocols `protocols_map`.
    pub fn new(name: &str, addr: &str, protocols_map: HashMap<u128, Protocol>) -> (d: Self)
        ensures
            d.name@ == name@,
            d.actor_id == AnId(MSG_ROUTER_DISPATCHER_ACTOR_ID),
            is_random_uuid(d.instance_id.0),
            d.protocol_set.name@ == MSG_ROUTER_DISPATCHER_PROTOCOL_SET_NAME@,
            d.protocol_set.id == ProtocolSetId(AnId(MSG_ROUTER_DISPATCHER_PROTOCOL_SET_ID)),
            d.protocol_set.protocols_map@ == protocols_map@,
            d.current_state == RouterState::State0,
            d.chnl_name@ == chnl_name(name@),
            d.addr@ == addr@,
            d.table.view() == Map::<Seq<char>, F>::empty(),
    {
        let mut chnl = String::from_str(name);
        chnl.append("_chnl");
        MsgRouterDispatcher {
            name: String::from_str(name),
            actor_id: AnId(MSG_ROUTER_DISPATCHER_ACTOR_ID),
            instance_id: AnId::new(),
            protocol_set: ProtocolSet::new(
                MSG_ROUTER_DISPATCHER_PROTOCOL_SET_NAME,
                ProtocolSetId(AnId(MSG_ROUTER_DISPATCHER_PROTOCOL_SET_ID)),
                protocols_map,
            ),
            current_state: RouterState::State0,
            chnl_name: chnl,
            addr: String::from_str(addr),
            table: DeserializerTable::new(),
        }
    }

    /// The information about the current state.
    pub fn state_info(&self) -> (si: StateInfo)
        ensures
            si.name@ == "state0"@,
    {
        match self.current_state {
            RouterState::State0 => StateInfo { name: String::from_str("state0") },
        }
    }

    /// Adds the deserializer of the messages with id `msg_id`, unless one
    /// is there; true when it was added.
    pub fn add_msg_id_from_serde_json_buf(&mut self, msg_id: AnId, from_serde_json_buf: F) -> (added: bool)
        ensures
            added == !old(self).table.view().contains_key(uuid_str(msg_id.0)),
            final(self).table.view() == after_insert_if_vacant(
                old(self).table.view(),
                uuid_str(msg_id.0),
                from_serde_json_buf,
            ),
            final(self).name == old(self).name,
            final(self).actor_id == old(self).actor_id,
            final(self).instance_id == old(self).instance_id,
            final(self).protocol_set == old(self).protocol_set,
            final(self).current_state == old(self).current_state,
            final(self).chnl_name == old(self).chnl_name,
            final(self).addr == old(self).addr,
    {
        self.table.insert_if_vacant(msg_id, from_serde_json_buf)
    }

    /// Handles one message in the current state; `dst_instance_id` is the
    /// instance id of the actor that sent it.
    pub fn process_msg(&mut self, dst_instance_id: &AnId, msg: DispatcherMsg<F>) -> (a: DispatcherAction)
        requires
            dispatcher_msg_ok(msg),
        ensures
            final(self).name == old(self).name,
            final(self).actor_id == old(self).actor_id,
            final(self).instance_id == old(self).instance_id,
            final(self).protocol_set == old(self).protocol_set,
            final(self).current_state == old(self).current_state,
            final(self).chnl_name == old(self).chnl_name,
            final(self).addr == old(self).addr,
            match msg {
                DispatcherMsg::InsertKeyReq { msg_id, from_serde_json_buf } => {
                    let added = !old(self).table.view().contains_key(uuid_str(msg_id.0));
                    &&& final(self).table.view() == after_insert_if_vacant(
                        old(self).table.view(),
                        uuid_str(msg_id.0),
                        from_serde_json_buf,
                    )
                    &&& a == DispatcherAction::SendInsertRspToDst(InsertKeyMsgIdValueFromSerdeJsonBufRsp {
                        header: MsgHeader::spec_new(
                            AnId(INSERT_KEY_MSG_ID_VALUE_FROM_SERDE_JSON_BUF_RSP_ID),
                            *dst_instance_id,
                            old(self).instance_id,
                        ),
                        msg_id,
                        status: if added {
                            InsertKeyMsgIdValueFromSerdeJsonBufRspStatus::Success
                        } else {
                            InsertKeyMsgIdValueFromSerdeJsonBufRspStatus::AlreadyInserted
                        },
                    })
                },
                DispatcherMsg::EchoReq(req) => {
                    &&& final(self).table.view() == old(self).table.view()
                    &&& a matches DispatcherAction::SendEchoRspToDst(r) && echo_answer(
                        r,
                        req,
                        *dst_instance_id,
                        old(self).instance_id,
                    )
                },
                DispatcherMsg::CmdInit(m) => {
                    &&& final(self).table.view() == old(self).table.view()
                    &&& a matches DispatcherAction::SendToConMgr(r) && router_registration(
                        r,
                        m.header.src_id,
                        old(self).instance_id,
                        old(self).name@,
                        old(self).actor_id,
                        old(self).protocol_set,
                    )
                },
                DispatcherMsg::ConMgrRegisterActorRsp(_) => {
                    &&& final(self).table.view() == old(self).table.view()
                    &&& a == DispatcherAction::StartDeserializer
                },
                DispatcherMsg::Other(_) => {
                    &&& final(self).table.view() == old(self).table.view()
                    &&& a == DispatcherAction::Nothing
                },
            },
    {
        match msg {
            DispatcherMsg::InsertKeyReq { msg_id, from_serde_json_buf } => {
                let status = if self.table.insert_if_vacant(msg_id, from_serde_json_buf) {
                    InsertKeyMsgIdValueFromSerdeJsonBufRspStatus::Success
                } else {
                    InsertKeyMsgIdValueFromSerdeJsonBufRspStatus::AlreadyInserted
                };
                DispatcherAction::SendInsertRspToDst(
                    InsertKeyMsgIdValueFromSerdeJsonBufRsp::new(
                        dst_instance_id,
                        &self.instance_id,
                        &msg_id,
                        status,
                    ),
                )
            },
            DispatcherMsg::EchoReq(req) => DispatcherAction::SendEchoRspToDst(
                EchoRsp::new(dst_instance_id, &self.instance_id, req.req_timestamp_ns, req.counter),
            ),
            DispatcherMsg::CmdInit(m) => DispatcherAction::SendToConMgr(
                ConMgrRegisterActorReq::new(
                    &m.header.src_id,
                    &self.instance_id,
                    self.name.as_str(),
                    &self.actor_id,
                    &self.instance_id,
                    &self.protocol_set,
                ),
            ),
            DispatcherMsg::ConMgrRegisterActorRsp(_) => DispatcherAction::StartDeserializer,
            DispatcherMsg::Other(_) => DispatcherAction::Nothing,
        }
    }
}

// ---------------------------------------------------------------------------
// Forwarder

/// Actor id of every forwarder.
pub const MSG_ROUTER_FORWARDER_ACTOR_ID: u128 = 0x31408435_3d0a_400d_83fd_a649c1321f7b;
/// Protocol set id of every forwarder.
pub const MSG_ROUTER_FORWARDER_PROTOCOL_SET_ID: u128 = 0xcbfbb7cc_d5bd_41be_9a0b_30bafb518be2;
/// Name of every forwarder's protocol set.
pub const MSG_ROUTER_FORWARDER_PROTOCOL_SET_NAME: &'static str = "msg_router_receiver_ps";

/// The name of the forwarding channel of the router `name`:
/// `<name>_chnlforwarder_chnl`.
pub open spec fn forwarder_chnl_name(name: Seq<char>) -> Seq<char> {
    chnl_name(name) + "forwarder_chnl"@
}

/// What a forwarder can receive.
pub enum ForwarderMsg<F> {
    InsertKeyReq { msg_id: AnId, to_serde_json_buf: F },
    ActorSenderReq,
    EchoReq(EchoReq),
    CmdInit(CmdInit),
    ConMgrRegisterActorRsp(ConMgrRegisterActorRsp),
    Other(MsgHeader),
}

/// What a forwarder does.
#[derive(Debug)]
pub enum ForwarderAction {
    /// Send to the sender of the message being handled.
    SendInsertRspToDst(InsertKeyMsgIdValueToSerdeJsonBufRsp),
    /// Send to the sender of the message being handled a
    /// `MsgRouterForwarderActorSenderRsp` with this header, carrying the
    /// sender of the forwarding channel.
    SendForwarderSenderToDst(MsgHeader),
    /// Send to the sender of the message being handled.
    SendEchoRspToDst(EchoRsp),
    /// Send to the connection manager, then start forwarding to the
    /// forwarder's address.
    SendToConMgrAndStartForwarder(ConMgrRegisterActorReq),
    Nothing,
}

pub open spec fn forwarder_msg_ok<F>(msg: ForwarderMsg<F>) -> bool {
    match msg {
        ForwarderMsg::EchoReq(m) => router_header_ok(m.header.msg_id, ECHO_REQ_ID),
        ForwarderMsg::CmdInit(m) => router_header_ok(m.header.msg_id, CMD_INIT_ID),
        ForwarderMsg::ConMgrRegisterActorRsp(m) => router_header_ok(
            m.header.msg_id,
            CON_MGR_REGISTER_ACTOR_RSP_ID,
        ) && m.status == ConMgrRegisterActorStatus::Success,
        _ => true,
    }
}

/// A forwarder: an actor that owns a table of serializers and a forwarding
/// channel whose messages it writes, framed, to `addr`.
#[verifier::reject_recursive_types(F)]
#[derive(Debug)]
pub struct MsgRouterForwarder<F> {
    pub name: String,
    pub actor_id: AnId,
    pub instance_id: AnId,
    pub protocol_set: ProtocolSet,
    pub current_state: RouterState,
    pub chnl_name: String,
    pub forwarder_name: String,
    pub forwarder_instance_id: AnId,
    /// Address and port of the dispatcher this forwards to.
    pub addr: String,
    pub table: SerializerTable<F>,
}

impl<F> MsgRouterForwarder<F> {
    /// A forwarder named `name` that will forward to `addr`, with new
    /// random instance ids for itself and its forwarding channel and an
    /// empty table. Its protocol set is `msg_router_receiver_ps`, made of
    /// the protocols `protocols_map`.
    pub fn new(name: &str, addr: &str, protocols_map: HashMap<u128, Protocol>) -> (r: Self)
        ensures
            r.name@ == name@,
            r.actor_id == AnId(MSG_ROUTER_FORWARDER_ACTOR_ID),
            is_random_uuid(r.instance_id.0),
            is_random_uuid(r.forwarder_instance_id.0),
            r.protocol_set.name@ == MSG_ROUTER_FORWARDER_PROTOCOL_SET_NAME@,
            r.protocol_set.id == ProtocolSetId(AnId(MSG_ROUTER_FORWARDER_PROTOCOL_SET_ID)),
            r.protocol_set.protocols_map@ == protocols_map@,
            r.current_state == RouterState::State0,
            r.chnl_name@ == chnl_name(name@),
            r.forwarder_name@ == forwarder_chnl_name(name@),
            r.addr@ == addr@,
            r.table.view() == Map::<u128, F>::empty(),
    {
        let mut chnl = String::from_str(name);
        chnl.append("_chnl");
        let mut fwd = String::from_str(chnl.as_str());
        fwd.append("forwarder_chnl");
        MsgRouterForwarder {
            name: String::from_str(name),
            actor_id: AnId(MSG_ROUTER_FORWARDER_ACTOR_ID),
            instance_id: AnId::new(),
            protocol_set: ProtocolSet::new(
                MSG_ROUTER_FORWARDER_PROTOCOL_SET_NAME,
                ProtocolSetId(AnId(MSG_ROUTER_FORWARDER_PROTOCOL_SET_ID)),
                protocols_map,
            ),
            current_state: RouterState::State0,
            chnl_name: chnl,
            forwarder_name: fwd,
            forwarder_instance_id: AnId::new(),
            addr: String::from_str(addr),
            table: SerializerTable::new(),
        }
    }

    /// The information about the current state.
    pub fn state_info(&self) -> (si: StateInfo)
        ensures
            si.name@ == "state0"@,
    {
        match self.current_state {
            RouterState::State0 => StateInfo { name: String::from_str("state0") },
        }
    }

    /// Adds the serializer of the messages with id `msg_id`, unless one is
    /// there; true when it was added.
    pub fn add_msg_id_to_serde_json_buf(&mut self, msg_id: AnId, to_serde_json_buf: F) -> (added: bool)
        ensures
            added == !old(self).table.view().contains_key(msg_id.0),
            final(self).table.view() == after_insert_if_vacant(
                old(self).table.view(),
                msg_id.0,
                to_serde_json_buf,
            ),
            final(self).name == old(self).name,
            final(self).actor_id == old(self).actor_id,
            final(self).instance_id == old(self).instance_id,
            final(self).forwarder_instance_id == old(self).forwarder_instance_id,
            final(self).protocol_set == old(self).protocol_set,
            final(self).current_state == old(self).current_state,
            final(self).chnl_name == old(self).chnl_name,
            final(self).forwarder_name == old(self).forwarder_name,
            final(self).addr == old(self).addr,
    {
        self.table.insert_if_vacant(msg_id, to_serde_json_buf)
    }

    /// Handles one message in the current state; `dst_instance_id` is the
    /// instance id of the actor that sent it.
    pub fn process_msg(&mut self, dst_instance_id: &AnId, msg: ForwarderMsg<F>) -> (a: ForwarderAction)
        requires
            forwarder_msg_ok(msg),
        ensures
            final(self).name == old(self).name,
            final(self).actor_id == old(self).actor_id,
            final(self).instance_id == old(self).instance_id,
            final(self).forwarder_instance_id == old(self).forwarder_instance_id,
            final(self).protocol_set == old(self).protocol_set,
            final(self).current_state == old(self).current_state,
            final(self).chnl_name == old(self).chnl_name,
            final(self).forwarder_name == old(self).forwarder_name,
            final(self).addr == old(self).addr,
            match msg {
                ForwarderMsg::InsertKeyReq { msg_id, to_serde_json_buf } => {
                    let added = !old(self).table.view().contains_key(msg_id.0);
                    &&& final(self).table.view() == after_insert_if_vacant(
                        old(self).table.view(),
                        msg_id.0,
                        to_serde_json_buf,
                    )
                    &&& a == ForwarderAction::SendInsertRspToDst(InsertKeyMsgIdValueToSerdeJsonBufRsp {
                        header: MsgHeader::spec_new(
                            AnId(INSERT_KEY_MSG_ID_VALUE_TO_SERDE_JSON_BUF_RSP_ID),
                            *dst_instance_id,
                            old(self).instance_id,
                        ),
                        msg_id,
                        status: if added {
                            InsertKeyMsgIdValueToSerdeJsonBufRspStatus::Success
                        } else {
                            InsertKeyMsgIdValueToSerdeJsonBufRspStatus::AlreadyInserted
                        },
                    })
                },
                ForwarderMsg::ActorSenderReq => {
                    &&& final(self).table.view() == old(self).table.view()
                    &&& a == ForwarderAction::SendForwarderSenderToDst(
                        MsgHeader::spec_new(
                            AnId(MSG_ROUTER_FORWARDER_ACTOR_SENDER_RSP_ID),
                            *dst_instance_id,
                            old(self).instance_id,
                        ),
                    )
                },
                ForwarderMsg::EchoReq(req) => {
                    &&& final(self).table.view() == old(self).table.view()
                    &&& a matches ForwarderAction::SendEchoRspToDst(r) && echo_answer(
                        r,
                        req,
                        *dst_instance_id,
                        old(self).instance_id,
                    )
                },
                ForwarderMsg::CmdInit(m) => {
                    &&& final(self).table.view() == old(self).table.view()
                    &&& a matches ForwarderAction::SendToConMgrAndStartForwarder(r)
                        && router_registration(
                        r,
                        m.header.src_id,
                        old(self).instance_id,
                        old(self).name@,
                        old(self).actor_id,
                        old(self).protocol_set,
                    )
                },
                _ => {
                    &&& final(self).table.view() == old(self).table.view()
                    &&& a == ForwarderAction::Nothing
                },
            },
    {
        match msg {
            ForwarderMsg::InsertKeyReq { msg_id, to_serde_json_buf } => {
                let status = if self.table.insert_if_vacant(msg_id, to_serde_json_buf) {
                    InsertKeyMsgIdValueToSerdeJsonBufRspStatus::Success
                } else {
                    InsertKeyMsgIdValueToSerdeJsonBufRspStatus::AlreadyInserted
                };
                ForwarderAction::SendInsertRspToDst(
                    InsertKeyMsgIdValueToSerdeJsonBufRsp::new(
                        dst_instance_id,
                        &self.instance_id,
                        &msg_id,
                        status,
                    ),
                )
            },
            ForwarderMsg::ActorSenderReq => ForwarderAction::SendForwarderSenderToDst(
                MsgHeader::new(AnId(MSG_ROUTER_FORWARDER_ACTOR_SENDER_RSP_ID), *dst_instance_id, self.instance_id),
            ),
            ForwarderMsg::EchoReq(req) => ForwarderAction::SendEchoRspToDst(
                EchoRsp::new(dst_instance_id, &self.instance_id, req.req_timestamp_ns, req.counter),
            ),
            ForwarderMsg::CmdInit(m) => ForwarderAction::SendToConMgrAndStartForwarder(
                ConMgrRegisterActorReq::new(
                    &m.header.src_id,
                    &self.instance_id,
                    self.name.as_str(),
                    &self.actor_id,
                    &self.instance_id,
                    &self.protocol_set,
                ),
            ),
            ForwarderMsg::ConMgrRegisterActorRsp(_) => ForwarderAction::Nothing,
            ForwarderMsg::Other(_) => ForwarderAction::Nothing,
        }
    }
}


impl<F> Actor for MsgRouterDispatcher<F> {
    open spec fn spec_name(&self) -> Seq<char> {
        self.name@
    }

    open spec fn spec_actor_id(&self) -> AnId {
        self.actor_id
    }

    open spec fn spec_instance_id(&self) -> AnId {
        self.instance_id
    }

    open spec fn spec_protocol_set(&self) -> ProtocolSet {
        self.protocol_set
    }

    fn get_name(&self) -> (r: &str) {
        self.name.as_str()
    }

    fn get_actor_id(&self) -> (r: &AnId) {
        &self.actor_id
    }

    fn get_instance_id(&self) -> (r: &AnId) {
        &self.instance_id
    }

    fn get_protocol_set(&self) -> (r: &ProtocolSet) {
        &self.protocol_set
    }

    /// A dispatcher never reports that it is done.
    fn done(&self) -> (r: bool)
        ensures
            !r,
    {
        false
    }
}

impl<F> Actor for MsgRouterForwarder<F> {
    open spec fn spec_name(&self) -> Seq<char> {
        self.name@
    }

    open spec fn spec_actor_id(&self) -> AnId {
        self.actor_id
    }

    open spec fn spec_instance_id(&self) -> AnId {
        self.instance_id
    }

    open spec fn spec_protocol_set(&self) -> ProtocolSet {
        self.protocol_set
    }

    fn get_name(&self) -> (r: &str) {
        self.name.as_str()
    }

    fn get_actor_id(&self) -> (r: &AnId) {
        &self.actor_id
    }

    fn get_instance_id(&self) -> (r: &AnId) {
        &self.instance_id
    }

    fn get_protocol_set(&self) -> (r: &ProtocolSet) {
        &self.protocol_set
    }

    /// A forwarder never reports that it is done.
    fn done(&self) -> (r: bool)
        ensures
            !r,
    {
        false
    }
}

} // verus!
