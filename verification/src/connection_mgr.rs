//! An early connection manager: it answers echo requests with `EchoReply`.
use vstd::prelude::*;
use std::collections::HashMap;
use crate::actor::Actor;
use crate::an_id::{is_random_uuid, AnId};
use crate::msg_header::MsgHeader;
use crate::msgs::{EchoReply, EchoReq, ECHO_REPLY_ID, ECHO_REQ_ID};
use crate::protocol::{
    echo_requestee_protocol, Protocol, ProtocolSet, ProtocolSetId, ECHO_REQUESTEE_PROTOCOL_ID,
    ECHO_REQUESTEE_PROTOCOL_NAME,
};
use crate::state_info::StateInfo;

verus! {

broadcast use vstd::std_specs::hash::group_hash_axioms;

/// Actor id of the connection manager.
pub const CM_ACTOR_ID: u128 = 0x3f82508e_7970_44e9_8fb9_b7936c9c4833;
/// Protocol set id of the connection manager.
pub const CM_PROTOCOL_SET_ID: u128 = 0xea140384_faa7_4599_9f7d_dd4c2380a5fb;
/// Name of the connection manager's protocol set.
pub const CM_PROTOCOL_SET_NAME: &'static str = "connection_mgr_ps";

/// The states of a connection manager.
#[derive(Clone, Copy, PartialEq, Eq, Debug, Structural)]
pub enum ConnectionMgrState {
    State0,
}

/// What a connection manager can receive.
pub enum ConnectionMgrMsg {
    EchoReq(EchoReq),
    Other(MsgHeader),
}

/// What a connection manager does.
#[derive(Debug)]
pub enum ConnectionMgrAction {
    /// Send to the sender of the message being handled.
    SendRsp(EchoReply),
    Nothing,
}

/// A connection manager; `S` is the sender it can send itself messages
/// with, once it is given one.
#[derive(Debug)]
pub struct ConnectionMgr<S> {
    pub name: String,
    pub actor_id: AnId,
    pub instance_id: AnId,
    pub protocol_set: ProtocolSet,
    pub current_state: ConnectionMgrState,
    pub self_tx: Option<S>,
}

impl<S> ConnectionMgr<S> {
    /// A connection manager named `name` with a new instance id, whose
    /// protocol set holds the echo requestee protocol alone.
    pub fn new(name: &str) -> (c: Self)
        ensures
            c.name@ == name@,
            c.actor_id == AnId(CM_ACTOR_ID),
            is_random_uuid(c.instance_id.0),
            c.protocol_set.name@ == CM_PROTOCOL_SET_NAME@,
            c.protocol_set.id == ProtocolSetId(AnId(CM_PROTOCOL_SET_ID)),
            c.protocol_set.protocols_map@.dom() == set![ECHO_REQUESTEE_PROTOCOL_ID],
            c.protocol_set.protocols_map@[ECHO_REQUESTEE_PROTOCOL_ID].name@ == ECHO_REQUESTEE_PROTOCOL_NAME@,
            c.protocol_set.protocols_map@[ECHO_REQUESTEE_PROTOCOL_ID].id == AnId(ECHO_REQUESTEE_PROTOCOL_ID),
            c.protocol_set.protocols_map@[ECHO_REQUESTEE_PROTOCOL_ID].messages@ == seq![
                AnId(ECHO_REQ_ID),
                AnId(ECHO_REPLY_ID),
            ],
            c.current_state == ConnectionMgrState::State0,
            c.self_tx is None,
    {
        let requestee_protocol = echo_requestee_protocol();
        let mut cm_pm: HashMap<u128, Protocol> = HashMap::new();
        cm_pm.insert(requestee_protocol.id.0, requestee_protocol);
        assert(cm_pm@.dom() =~= set![ECHO_REQUESTEE_PROTOCOL_ID]);
        let ps = ProtocolSet::new(CM_PROTOCOL_SET_NAME, ProtocolSetId(AnId(CM_PROTOCOL_SET_ID)), cm_pm);
        ConnectionMgr {
            name: String::from_str(name),
            actor_id: AnId(CM_ACTOR_ID),
            instance_id: AnId::new(),
            protocol_set: ps,
            current_state: ConnectionMgrState::State0,
            self_tx: None,
        }
    }

    /// The information about the current state.
    pub fn state_info(&self) -> (si: StateInfo)
        ensures
            si.name@ == "state0"@,
    {
        match self.current_state {
            ConnectionMgrState::State0 => StateInfo { name: String::from_str("state0") },
        }
    }

    /// Keeps `sender` as the sender to send itself messages with.
    pub fn set_self_sender(&mut self, sender: S)
        ensures
            *final(self) == (ConnectionMgr { self_tx: Some(sender), ..*old(self) }),
    {
        self.self_tx = Some(sender);
    }

    /// Handles one message: an `EchoReq` is answered with an `EchoReply`
    /// carrying its time stamp and counter; anything else is ignored.
    pub fn process_msg(&mut self, msg: ConnectionMgrMsg) -> (a: ConnectionMgrAction)
        requires
            msg matches ConnectionMgrMsg::EchoReq(m) ==> m.header.msg_id == AnId(ECHO_REQ_ID),
        ensures
            *final(self) == *old(self),
            match msg {
                ConnectionMgrMsg::EchoReq(m) => a matches ConnectionMgrAction::SendRsp(r) && {
                    &&& r.header == MsgHeader::spec_new_msg_id_only(AnId(ECHO_REPLY_ID))
                    &&& r.req_timestamp_ns == m.req_timestamp_ns
                    &&& r.counter == m.counter
                    &&& r.reply_timestamp_ns >= 0
                },
                ConnectionMgrMsg::Other(_) => a is Nothing,
            },
    {
        match msg {
            ConnectionMgrMsg::EchoReq(m) => ConnectionMgrAction::SendRsp(
                EchoReply::new(m.req_timestamp_ns, m.counter),
            ),
            ConnectionMgrMsg::Other(_) => ConnectionMgrAction::Nothing,
        }
    }
}

impl<S> Actor for ConnectionMgr<S> {
    open spec fn spec_name(&self) -> Seq<char> {
        self.name@
    }

    open spec fn spec_actor_id(&self) -> AnId {
        self.actor_id
    }

    open spec fn spec_instance_id(&self) -> AnId {
        self.instance_id
    }

    open spec fn spec_protocol_set(&self) -> ProtocolSet {
        self.protocol_set
    }

    fn get_name(&self) -> (r: &str) {
        self.name.as_str()
    }

    fn get_actor_id(&self) -> (r: &AnId) {
        &self.actor_id
    }

    fn get_instance_id(&self) -> (r: &AnId) {
        &self.instance_id
    }

    fn get_protocol_set(&self) -> (r: &ProtocolSet) {
        &self.protocol_set
    }

    /// A connection manager never reports that it is done.
    fn done(&self) -> (r: bool)
        ensures
            !r,
    {
        false
    }
}

} // verus!
