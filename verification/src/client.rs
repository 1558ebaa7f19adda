//! The client: an actor that, told to by a controller with `EchoStart`,
//! pings a partner `ping_count` times with `EchoReq` and then tells the
//! controller `EchoComplete`. It also registers itself with the connection
//! manager on `CmdInit`, answers `EchoReq` and answers `Msg2` with `Msg1`.
use vstd::prelude::*;
use crate::actor::Actor;
use crate::an_id::{is_random_uuid, AnId};
use crate::con_mgr::{
    ConMgrRegisterActorReq, ConMgrRegisterActorRsp, ConMgrRegisterActorStatus,
    CON_MGR_REGISTER_ACTOR_REQ_ID, CON_MGR_REGISTER_ACTOR_RSP_ID,
};
use crate::msg_header::MsgHeader;
use crate::msgs::{
    CmdInit, EchoComplete, EchoReq, EchoRsp, EchoStart, Msg1, Msg2, CMD_INIT_ID, ECHO_COMPLETE_ID,
    ECHO_REQ_ID, ECHO_RSP_ID, ECHO_START_ID, MSG1_ID,
};
use crate::protocol::{Protocol, ProtocolSet, ProtocolSetId};
use std::collections::HashMap;
use crate::state_info::StateInfo;

verus! {

/// Actor id of every client.
pub const CLIENT_ACTOR_ID: u128 = 0x02960323_48ef_4e9e_b3b7_d8a3ad6b49ed;
/// Protocol set id of every client.
pub const CLIENT_PROTOCOL_SET_ID: u128 = 0x1a7b43ed_4676_42cd_9969_72283f258ef1;
/// Name of every client's protocol set.
pub const CLIENT_PROTOCOL_SET_NAME: &'static str = "client_ps";

/// The value that a client sends in the `Msg1` it answers a `Msg2` with.
pub const CLIENT_MSG1_VALUE: u64 = 123;

/// The states of a client.
#[derive(Clone, Copy, PartialEq, Eq, Debug, Structural)]
pub enum ClientState {
    State0,
}

/// What a client can receive. With an `EchoStart` come the destination
/// instance ids of the senders found for its partner and for its source
/// (the controller), where one was found.
pub enum ClientMsg {
    EchoRsp(EchoRsp),
    EchoReq(EchoReq),
    EchoStart { msg: EchoStart, partner_sndr: Option<AnId>, controller_sndr: Option<AnId> },
    Msg2(Msg2),
    CmdInit(CmdInit),
    ConMgrRegisterActorRsp(ConMgrRegisterActorRsp),
    Other(MsgHeader),
}

/// What a client sends, and to whom.
#[derive(Debug)]
pub enum ClientAction {
    /// Send to the partner's sender.
    SendToPartner(EchoReq),
    /// Send to the controller's sender.
    SendToController(EchoComplete),
    /// Send to the sender of the message being handled.
    SendEchoRspToDst(EchoRsp),
    /// Send to the sender of the message being handled.
    SendMsg1ToDst(Msg1),
    /// Send to the connection manager.
    SendToConMgr(ConMgrRegisterActorReq),
    Nothing,
}

/// The next step of an echo sequence, abstractly.
pub enum EchoDecision {
    /// Ping the partner reached at `dst` with `counter`.
    Req { dst: AnId, counter: u64 },
    /// Tell the controller reached at `dst` that the sequence is done.
    Complete { dst: AnId },
    /// No sender to send to.
    Nothing,
}

/// What a client does next in an echo sequence of `ping_count` pings,
/// about to send ping `counter`.
pub open spec fn echo_decision(
    ping_count: u64,
    partner_sndr: Option<AnId>,
    controller_sndr: Option<AnId>,
    counter: u64,
) -> EchoDecision {
    if counter <= ping_count {
        match partner_sndr {
            Some(p) => EchoDecision::Req { dst: p, counter },
            None => EchoDecision::Nothing,
        }
    } else {
        match controller_sndr {
            Some(c) => EchoDecision::Complete { dst: c },
            None => EchoDecision::Nothing,
        }
    }
}

/// While pings remain (`counter <= ping_count`) the client pings its
/// partner with `counter` wherever a sender for the partner is known, and
/// does nothing where none is, whatever the controller's sender is. Once
/// they are done it tells the controller that the sequence is complete
/// wherever a sender for the controller is known, and does nothing where
/// none is, whatever the partner's sender is.
pub proof fn lemma_echo_decision_uses_the_right_sender(
    ping_count: u64,
    partner_sndr: Option<AnId>,
    controller_sndr: Option<AnId>,
    other_sndr: Option<AnId>,
    counter: u64,
)
    ensures
        counter <= ping_count ==> {
            &&& echo_decision(ping_count, partner_sndr, controller_sndr, counter) == echo_decision(
                ping_count,
                partner_sndr,
                other_sndr,
                counter,
            )
            &&& partner_sndr matches Some(p) ==> echo_decision(
                ping_count,
                partner_sndr,
                controller_sndr,
                counter,
            ) == (EchoDecision::Req { dst: p, counter })
            &&& partner_sndr is None ==> echo_decision(ping_count, partner_sndr, controller_sndr, counter)
                is Nothing
        },
        counter > ping_count ==> {
            &&& echo_decision(ping_count, partner_sndr, controller_sndr, counter) == echo_decision(
                ping_count,
                other_sndr,
                controller_sndr,
                counter,
            )
            &&& controller_sndr matches Some(c) ==> echo_decision(
                ping_count,
                partner_sndr,
                controller_sndr,
                counter,
            ) == (EchoDecision::Complete { dst: c })
            &&& controller_sndr is None ==> echo_decision(ping_count, partner_sndr, controller_sndr, counter)
                is Nothing
        },
{
}

/// `a` is the action that carries out `d` for the client `self_id`.
pub open spec fn carries_out(a: ClientAction, d: EchoDecision, self_id: AnId) -> bool {
    match d {
        EchoDecision::Req { dst, counter } => a matches ClientAction::SendToPartner(m) && m.header
            == MsgHeader::spec_new(AnId(ECHO_REQ_ID), dst, self_id) && m.counter == counter,
        EchoDecision::Complete { dst } => a == ClientAction::SendToController(
            EchoComplete { header: MsgHeader::spec_new(AnId(ECHO_COMPLETE_ID), dst, self_id) },
        ),
        EchoDecision::Nothing => a == ClientAction::Nothing,
    }
}

/// The decisions of an echo sequence from ping `from` on, when each ping is
/// answered and the answer brings the next decision, for at most `fuel`
/// answers.
pub open spec fn echo_trace(
    ping_count: u64,
    partner_sndr: Option<AnId>,
    controller_sndr: Option<AnId>,
    from: u64,
    fuel: nat,
) -> Seq<EchoDecision>
    decreases fuel,
{
    let d = echo_decision(ping_count, partner_sndr, controller_sndr, from);
    if fuel == 0 || from == u64::MAX {
        seq![d]
    } else {
        match d {
            EchoDecision::Req { .. } => seq![d] + echo_trace(
                ping_count,
                partner_sndr,
                controller_sndr,
                (from + 1) as u64,
                (fuel - 1) as nat,
            ),
            _ => seq![d],
        }
    }
}

/// With a partner and a controller, an echo sequence of `n` pings sends
/// the pings `k .. n` in order, each to the partner, and then tells the
/// controller it is complete.
pub proof fn lemma_echo_trace(n: u64, p: AnId, c: AnId, k: u64)
    requires
        1 <= k <= n + 1,
        n < u64::MAX,
    ensures
        echo_trace(n, Some(p), Some(c), k, (n + 1 - k) as nat) == Seq::new(
            (n + 1 - k) as nat,
            |i: int| EchoDecision::Req { dst: p, counter: (k + i) as u64 },
        ).push(EchoDecision::Complete { dst: c }),
    decreases n + 1 - k,
{
    let t = echo_trace(n, Some(p), Some(c), k, (n + 1 - k) as nat);
    let expect = Seq::new(
        (n + 1 - k) as nat,
        |i: int| EchoDecision::Req { dst: p, counter: (k + i) as u64 },
    ).push(EchoDecision::Complete { dst: c });
    if k == n + 1 {
        assert(t =~= expect);
    } else {
        lemma_echo_trace(n, p, c, (k + 1) as u64);
        let rest = Seq::new(
            (n - k) as nat,
            |i: int| EchoDecision::Req { dst: p, counter: (k + 1 + i) as u64 },
        ).push(EchoDecision::Complete { dst: c });
        assert(t == seq![EchoDecision::Req { dst: p, counter: k }] + rest);
        assert(t =~= expect);
    }
}

/// The whole echo sequence of `n` pings, started at ping 1, is the pings
/// 1 to `n` to the partner and then `EchoComplete` to the controller.
pub proof fn lemma_echo_sequence_complete(n: u64, p: AnId, c: AnId)
    requires
        n < u64::MAX,
    ensures
        echo_trace(n, Some(p), Some(c), 1, n as nat) == Seq::new(
            n as nat,
            |i: int| EchoDecision::Req { dst: p, counter: (1 + i) as u64 },
        ).push(EchoDecision::Complete { dst: c }),
{
    lemma_echo_trace(n, p, c, 1);
}

/// The checks a client makes of a message: its id is that of its kind,
/// and a registration answer reports success.
pub open spec fn client_msg_ok(msg: ClientMsg) -> bool {
    match msg {
        ClientMsg::EchoRsp(m) => m.header.msg_id == AnId(ECHO_RSP_ID) && m.counter < u64::MAX,
        ClientMsg::EchoReq(m) => m.header.msg_id == AnId(ECHO_REQ_ID),
        ClientMsg::EchoStart { msg, .. } => msg.header.msg_id == AnId(ECHO_START_ID),
        ClientMsg::CmdInit(m) => m.header.msg_id == AnId(CMD_INIT_ID),
        ClientMsg::ConMgrRegisterActorRsp(m) => m.header.msg_id == AnId(
            CON_MGR_REGISTER_ACTOR_RSP_ID,
        ) && m.status == ConMgrRegisterActorStatus::Success,
        _ => true,
    }
}

/// A client.
#[derive(Debug)]
pub struct Client {
    pub name: String,
    pub actor_id: AnId,
    pub instance_id: AnId,
    pub protocol_set: ProtocolSet,
    pub current_state: ClientState,
    pub partner_instance_id: Option<AnId>,
    /// Destination instance id of the sender found for the partner.
    pub partner_sndr: Option<AnId>,
    pub controller_instance_id: Option<AnId>,
    /// Destination instance id of the sender found for the controller.
    pub controller_sndr: Option<AnId>,
    pub ping_count: u64,
}

impl Client {
    /// A client named `name` with a new random instance id, no partner and
    /// no controller. Its protocol set is `client_ps`, made of the
    /// protocols `protocols_map`.
    pub fn new(name: &str, protocols_map: HashMap<u128, Protocol>) -> (c: Client)
        ensures
            c.name@ == name@,
            c.actor_id == AnId(CLIENT_ACTOR_ID),
            is_random_uuid(c.instance_id.0),
            c.protocol_set.name@ == CLIENT_PROTOCOL_SET_NAME@,
            c.protocol_set.id == ProtocolSetId(AnId(CLIENT_PROTOCOL_SET_ID)),
            c.protocol_set.protocols_map@ == protocols_map@,
            c.current_state == ClientState::State0,
            c.partner_instance_id is None,
            c.partner_sndr is None,
            c.controller_instance_id is None,
            c.controller_sndr is None,
            c.ping_count == 0,
    {
        Client {
            name: String::from_str(name),
            actor_id: AnId(CLIENT_ACTOR_ID),
            instance_id: AnId::new(),
            protocol_set: ProtocolSet::new(
                CLIENT_PROTOCOL_SET_NAME,
                ProtocolSetId(AnId(CLIENT_PROTOCOL_SET_ID)),
                protocols_map,
            ),
            current_state: ClientState::State0,
            partner_instance_id: None,
            partner_sndr: None,
            controller_instance_id: None,
            controller_sndr: None,
            ping_count: 0,
        }
    }

    /// The information about the current state.
    pub fn state_info(&self) -> (si: StateInfo)
        ensures
            si.name@ == "state0"@,
    {
        match self.current_state {
            ClientState::State0 => StateInfo { name: String::from_str("state0") },
        }
    }

    /// The next step of the echo sequence, about to send ping `counter`:
    /// ping the partner while `counter <= ping_count`, then tell the
    /// controller; nothing where the needed sender is missing.
    pub fn send_echo_req_or_complete(&self, counter: u64) -> (a: ClientAction)
        ensures
            carries_out(
                a,
                echo_decision(self.ping_count, self.partner_sndr, self.controller_sndr, counter),
                self.instance_id,
            ),
    {
        if counter <= self.ping_count {
            match self.partner_sndr {
                Some(p) => ClientAction::SendToPartner(EchoReq::new(&p, &self.instance_id, counter)),
                None => ClientAction::Nothing,
            }
        } else {
            match self.controller_sndr {
                Some(c) => ClientAction::SendToController(EchoComplete::new(&c, &self.instance_id)),
                None => ClientAction::Nothing,
            }
        }
    }

    /// Handles one message in the current state. `dst_instance_id` is the
    /// instance id of the actor that sent it.
    pub fn process_msg(&mut self, dst_instance_id: &AnId, msg: ClientMsg) -> (a: ClientAction)
        requires
            client_msg_ok(msg),
        ensures
            final(self).name == old(self).name,
            final(self).actor_id == old(self).actor_id,
            final(self).instance_id == old(self).instance_id,
            final(self).protocol_set == old(self).protocol_set,
            final(self).current_state == old(self).current_state,
            match msg {
                ClientMsg::EchoStart { msg: m, partner_sndr, controller_sndr } => {
                    &&& final(self).partner_instance_id == Some(m.partner_instance_id)
                    &&& final(self).partner_sndr == partner_sndr
                    &&& final(self).controller_instance_id == Some(m.header.src_id)
                    &&& final(self).controller_sndr == controller_sndr
                    &&& final(self).ping_count == m.ping_count
                    &&& carries_out(
                        a,
                        echo_decision(m.ping_count, partner_sndr, controller_sndr, 1),
                        old(self).instance_id,
                    )
                },
                _ => {
                    &&& final(self).partner_instance_id == old(self).partner_instance_id
                    &&& final(self).partner_sndr == old(self).partner_sndr
                    &&& final(self).controller_instance_id == old(self).controller_instance_id
                    &&& final(self).controller_sndr == old(self).controller_sndr
                    &&& final(self).ping_count == old(self).ping_count
                    &&& match msg {
                        ClientMsg::EchoRsp(m) => carries_out(
                            a,
                            echo_decision(
                                old(self).ping_count,
                                old(self).partner_sndr,
                                old(self).controller_sndr,
                                (m.counter + 1) as u64,
                            ),
                            old(self).instance_id,
                        ),
                        ClientMsg::EchoReq(m) => a matches ClientAction::SendEchoRspToDst(r) && {
                            &&& r.header == MsgHeader::spec_new(
                                AnId(ECHO_RSP_ID),
                                *dst_instance_id,
                                old(self).instance_id,
                            )
                            &&& r.req_timestamp_ns == m.req_timestamp_ns
                            &&& r.counter == m.counter
                            &&& r.rsp_timestamp_ns >= 0
                        },
                        ClientMsg::Msg2(m) => a == ClientAction::SendMsg1ToDst(
                            Msg1 {
                                header: MsgHeader::spec_new(
                                    AnId(MSG1_ID),
                                    m.header.src_id,
                                    old(self).instance_id,
                                ),
                                v: CLIENT_MSG1_VALUE,
                            },
                        ),
                        ClientMsg::CmdInit(m) => a matches ClientAction::SendToConMgr(r) && {
                            &&& r.header == MsgHeader::spec_new(
                                AnId(CON_MGR_REGISTER_ACTOR_REQ_ID),
                                m.header.src_id,
                                old(self).instance_id,
                            )
                            &&& r.name@ == old(self).name@
                            &&& r.id == old(self).actor_id
                            &&& r.instance_id == old(self).instance_id
                            &&& r.protocol_set.name@ == old(self).protocol_set.name@
                            &&& r.protocol_set.id == old(self).protocol_set.id
                            &&& r.protocol_set.protocols_map@ == old(self).protocol_set.protocols_map@
                        },
                        _ => a == ClientAction::Nothing,
                    }
                },
            },
    {
        match msg {
            ClientMsg::EchoRsp(m) => self.send_echo_req_or_complete(m.counter + 1),
            ClientMsg::EchoReq(m) => ClientAction::SendEchoRspToDst(
                EchoRsp::new(dst_instance_id, &self.instance_id, m.req_timestamp_ns, m.counter),
            ),
            ClientMsg::EchoStart { msg: m, partner_sndr, controller_sndr } => {
                self.partner_instance_id = Some(m.partner_instance_id);
                self.partner_sndr = partner_sndr;
                self.controller_instance_id = Some(m.header.src_id);
                self.controller_sndr = controller_sndr;
                self.ping_count = m.ping_count;
                self.send_echo_req_or_complete(1)
            },
            ClientMsg::Msg2(m) => ClientAction::SendMsg1ToDst(
                Msg1::new(&m.header.src_id, &self.instance_id, CLIENT_MSG1_VALUE),
            ),
            ClientMsg::CmdInit(m) => ClientAction::SendToConMgr(
                ConMgrRegisterActorReq::new(
                    &m.header.src_id,
                    &self.instance_id,
                    self.name.as_str(),
                    &self.actor_id,
                    &self.instance_id,
                    &self.protocol_set,
                ),
            ),
            ClientMsg::ConMgrRegisterActorRsp(_) => ClientAction::Nothing,
            ClientMsg::Other(_) => ClientAction::Nothing,
        }
    }
}


impl Actor for Client {
    open spec fn spec_name(&self) -> Seq<char> {
        self.name@
    }

    open spec fn spec_actor_id(&self) -> AnId {
        self.actor_id
    }

    open spec fn spec_instance_id(&self) -> AnId {
        self.instance_id
    }

    open spec fn spec_protocol_set(&self) -> ProtocolSet {
        self.protocol_set
    }

    fn get_name(&self) -> (r: &str) {
        self.name.as_str()
    }

    fn get_actor_id(&self) -> (r: &AnId) {
        &self.actor_id
    }

    fn get_instance_id(&self) -> (r: &AnId) {
        &self.instance_id
    }

    fn get_protocol_set(&self) -> (r: &ProtocolSet) {
        &self.protocol_set
    }

    /// A client never reports that it is done.
    fn done(&self) -> (r: bool)
        ensures
            !r,
    {
        false
    }
}

} // verus!
