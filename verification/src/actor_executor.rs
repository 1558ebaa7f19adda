//! The decisions of an actor executor: the loop that owns a set of actors,
//! waits on its own channel (operation 0 of its selector) and on the channel
//! of each actor it added (operation `i + 1` for the actor added `i`-th),
//! adds actors on request, stops on `CmdDone`, and hands each actor the
//! messages that arrive for it.
use vstd::prelude::*;
use crate::an_id::{is_random_uuid, AnId};
use crate::protocol::{Protocol, ProtocolSet, ProtocolSetId};
use std::collections::HashMap;
use crate::msg_header::MsgHeader;
use crate::msgs::{CmdInit, CMD_INIT_ID};

verus! {

/// Actor id of every actor executor.
pub const ACTOR_EXECUTOR_ACTOR_ID: u128 = 0x5c3d6e86_5e19_4ad8_a397_f446bedef1bd;
/// Protocol set id of every actor executor.
pub const ACTOR_EXECUTOR_PROTOCOL_SET_ID: u128 = 0x09b50f0f_fb5d_4609_b657_0b1910d1d1dc;

pub const REQ_ADD_ACTOR_ID_STR: &'static str = "8cc2afb6-c71f-43ae-a278-affcce76ffdd";
pub const REQ_ADD_ACTOR_ID: u128 = 0x8cc2afb6_c71f_43ae_a278_affcce76ffdd;

/// Asks an actor executor to add `actor`.
#[derive(Debug)]
pub struct ReqAddActor<A> {
    pub header: MsgHeader,
    pub actor: A,
}

impl<A> ReqAddActor<A> {
    pub fn new(dst_id: &AnId, src_id: &AnId, actor: A) -> (m: ReqAddActor<A>)
        ensures
            m.header == MsgHeader::spec_new(AnId(REQ_ADD_ACTOR_ID), *dst_id, *src_id),
            m.actor == actor,
    {
        ReqAddActor { header: MsgHeader::new(AnId(REQ_ADD_ACTOR_ID), *dst_id, *src_id), actor }
    }
}

pub const RSP_ADD_ACTOR_ID_STR: &'static str = "17a6ee73-6a91-42e2-908f-b1887e95d87a";
pub const RSP_ADD_ACTOR_ID: u128 = 0x17a6ee73_6a91_42e2_908f_b1887e95d87a;

/// Tells the requester that an actor was added, with its ids.
#[derive(Clone, Copy, PartialEq, Eq, Debug, Structural)]
pub struct RspAddActor {
    pub header: MsgHeader,
    pub actor_id: AnId,
    pub actor_instance_id: AnId,
}

impl RspAddActor {
    pub fn new(dst_id: &AnId, src_id: &AnId, actor_id: &AnId, actor_instance_id: &AnId) -> (m: RspAddActor)
        ensures
            m == (RspAddActor {
                header: MsgHeader::spec_new(AnId(RSP_ADD_ACTOR_ID), *dst_id, *src_id),
                actor_id: *actor_id,
                actor_instance_id: *actor_instance_id,
            }),
    {
        RspAddActor {
            header: MsgHeader::new(AnId(RSP_ADD_ACTOR_ID), *dst_id, *src_id),
            actor_id: *actor_id,
            actor_instance_id: *actor_instance_id,
        }
    }
}

/// The ids of an actor that an executor runs.
#[derive(Clone, Copy, PartialEq, Eq, Debug, Structural)]
pub struct ActorEntry {
    pub actor_id: AnId,
    pub instance_id: AnId,
}

/// What an actor executor's selector reported.
#[derive(Clone, Copy, PartialEq, Eq, Debug, Structural)]
pub enum AeEvent {
    /// Receiving on the executor's own channel failed.
    SelfRecvError,
    /// A request to add the actor with the given ids, from `requester_id`;
    /// `requester_sndr` is the destination instance id of the sender found
    /// for the requester.
    ReqAddActor {
        requester_id: AnId,
        requester_sndr: Option<AnId>,
        actor_id: AnId,
        actor_instance_id: AnId,
    },
    /// A `CmdDone` on the executor's own channel.
    CmdDone,
    /// Any other message on the executor's own channel.
    SelfOther(MsgHeader),
    /// A message arrived on selector operation `oper_idx`, not 0.
    ActorMsg { oper_idx: usize },
}

/// What an actor executor does.
#[derive(Clone, Copy, PartialEq, Eq, Debug, Structural)]
pub enum AeAction {
    /// Stop the loop.
    Stop,
    /// Keep the new actor at `actor_idx`, wait on its channel as selector
    /// operation `oper_idx`, send `rsp` to the requester and `init` to the
    /// new actor.
    AddActor { actor_idx: usize, oper_idx: usize, rsp: RspAddActor, init: CmdInit },
    /// Hand the message to the actor at `actor_idx`, whose instance id is
    /// `instance_id`.
    Deliver { actor_idx: usize, instance_id: AnId },
    /// Nothing to do.
    Ignore,
}

/// The abstract state of an actor executor.
pub struct AeView {
    pub instance_id: AnId,
    pub actors: Seq<ActorEntry>,
    pub done: bool,
}

/// An event an executor in state `s` can get: a request to add an actor
/// comes with a sender for the requester, and a message from the selector
/// names one of the actors' operations.
pub open spec fn ae_event_ok(s: AeView, e: AeEvent) -> bool {
    match e {
        AeEvent::ReqAddActor { requester_sndr, .. } => requester_sndr is Some && s.actors.len() + 1
            < usize::MAX,
        AeEvent::ActorMsg { oper_idx } => 1 <= oper_idx <= s.actors.len(),
        _ => true,
    }
}

/// The next state and the action of an executor in state `s` on event `e`.
pub open spec fn ae_step(s: AeView, e: AeEvent) -> (AeView, AeAction) {
    match e {
        AeEvent::SelfRecvError => (AeView { done: true, ..s }, AeAction::Stop),
        AeEvent::CmdDone => (AeView { done: true, ..s }, AeAction::Stop),
        AeEvent::SelfOther(_) => (s, AeAction::Ignore),
        AeEvent::ReqAddActor { requester_id, requester_sndr, actor_id, actor_instance_id } => {
            let idx = s.actors.len() as usize;
            (
                AeView {
                    actors: s.actors.push(ActorEntry { actor_id, instance_id: actor_instance_id }),
                    ..s
                },
                AeAction::AddActor {
                    actor_idx: idx,
                    oper_idx: (idx + 1) as usize,
                    rsp: RspAddActor {
                        header: MsgHeader::spec_new(
                            AnId(RSP_ADD_ACTOR_ID),
                            requester_sndr.unwrap(),
                            s.instance_id,
                        ),
                        actor_id,
                        actor_instance_id,
                    },
                    init: CmdInit {
                        header: MsgHeader::spec_new(AnId(CMD_INIT_ID), actor_instance_id, s.instance_id),
                    },
                },
            )
        },
        AeEvent::ActorMsg { oper_idx } => {
            let idx = (oper_idx - 1) as usize;
            (s, AeAction::Deliver { actor_idx: idx, instance_id: s.actors[idx as int].instance_id })
        },
    }
}

/// An actor executor: its ids, the ids of the actors it runs, in the order
/// they were added, and whether it is done.
#[derive(Debug)]
pub struct ActorExecutor {
    pub name: String,
    pub actor_id: AnId,
    pub instance_id: AnId,
    pub protocol_set: ProtocolSet,
    pub actors: Vec<ActorEntry>,
    pub con_mgr_instance_id: AnId,
    pub done: bool,
}

impl ActorExecutor {
    pub open spec fn view(&self) -> AeView {
        AeView { instance_id: self.instance_id, actors: self.actors@, done: self.done }
    }

    /// An executor named `name` with a new random instance id, no actors,
    /// working with the connection manager `con_mgr_instance_id`. Its
    /// protocol set is `<name>_ps`, made of the protocols `protocols_map`.
    pub fn new(name: &str, con_mgr_instance_id: &AnId, protocols_map: HashMap<u128, Protocol>) -> (ae:
        ActorExecutor)
        ensures
            ae.name@ == name@,
            ae.actor_id == AnId(ACTOR_EXECUTOR_ACTOR_ID),
            is_random_uuid(ae.instance_id.0),
            ae.protocol_set.name@ == name@ + "_ps"@,
            ae.protocol_set.id == ProtocolSetId(AnId(ACTOR_EXECUTOR_PROTOCOL_SET_ID)),
            ae.protocol_set.protocols_map@ == protocols_map@,
            ae.actors@.len() == 0,
            ae.con_mgr_instance_id == *con_mgr_instance_id,
            !ae.done,
    {
        let mut ps_name = String::from_str(name);
        ps_name.append("_ps");
        ActorExecutor {
            name: String::from_str(name),
            actor_id: AnId(ACTOR_EXECUTOR_ACTOR_ID),
            instance_id: AnId::new(),
            protocol_set: ProtocolSet::new(
                ps_name.as_str(),
                ProtocolSetId(AnId(ACTOR_EXECUTOR_PROTOCOL_SET_ID)),
                protocols_map,
            ),
            actors: Vec::new(),
            con_mgr_instance_id: *con_mgr_instance_id,
            done: false,
        }
    }

    pub fn name(&self) -> (r: &str)
        ensures
            r@ == self.name@,
    {
        self.name.as_str()
    }

    /// Takes one event of the loop: the new state and the action are those
    /// of `ae_step`.
    pub fn step(&mut self, e: AeEvent) -> (a: AeAction)
        requires
            ae_event_ok(old(self).view(), e),
        ensures
            (final(self).view(), a) == ae_step(old(self).view(), e),
            final(self).name == old(self).name,
            final(self).actor_id == old(self).actor_id,
            final(self).protocol_set == old(self).protocol_set,
            final(self).con_mgr_instance_id == old(self).con_mgr_instance_id,
    {
        match e {
            AeEvent::SelfRecvError => {
                self.done = true;
                AeAction::Stop
            },
            AeEvent::CmdDone => {
                self.done = true;
                AeAction::Stop
            },
            AeEvent::SelfOther(_) => AeAction::Ignore,
            AeEvent::ReqAddActor { requester_sndr, actor_id, actor_instance_id, .. } => {
                let idx = self.actors.len();
                let dst = requester_sndr.unwrap();
                self.actors.push(ActorEntry { actor_id, instance_id: actor_instance_id });
                AeAction::AddActor {
                    actor_idx: idx,
                    oper_idx: idx + 1,
                    rsp: RspAddActor::new(&dst, &self.instance_id, &actor_id, &actor_instance_id),
                    init: CmdInit::new(&actor_instance_id, &self.instance_id),
                }
            },
            AeEvent::ActorMsg { oper_idx } => {
                let idx = oper_idx - 1;
                AeAction::Deliver { actor_idx: idx, instance_id: self.actors[idx].instance_id }
            },
        }
    }
}

/// An actor that an executor adds is woken by the selector operation after
/// its index, and a message on that operation is handed to it.
pub proof fn lemma_added_actor_gets_its_messages(
    s: AeView,
    requester_id: AnId,
    requester_sndr: AnId,
    actor_id: AnId,
    actor_instance_id: AnId,
)
    requires
        s.actors.len() + 1 < usize::MAX,
    ensures
        ({
            let e = AeEvent::ReqAddActor {
                requester_id,
                requester_sndr: Some(requester_sndr),
                actor_id,
                actor_instance_id,
            };
            let (s1, a1) = ae_step(s, e);
            let oper = (s.actors.len() + 1) as usize;
            &&& a1 matches AeAction::AddActor { oper_idx, .. } && oper_idx == oper
            &&& ae_event_ok(s1, AeEvent::ActorMsg { oper_idx: oper })
            &&& ae_step(s1, AeEvent::ActorMsg { oper_idx: oper }).1 == AeAction::Deliver {
                actor_idx: s.actors.len() as usize,
                instance_id: actor_instance_id,
            }
        }),
{
}

/// Adding an actor keeps the actors added before at their places, so each
/// still gets the messages of its own selector operation.
pub proof fn lemma_add_keeps_earlier_actors(s: AeView, e: AeEvent, oper_idx: usize)
    requires
        ae_event_ok(s, e),
        e is ReqAddActor,
        1 <= oper_idx <= s.actors.len(),
    ensures
        ae_step(ae_step(s, e).0, AeEvent::ActorMsg { oper_idx }).1 == ae_step(
            s,
            AeEvent::ActorMsg { oper_idx },
        ).1,
{
}

/// `CmdDone` and a failed receive on its own channel stop an executor.
pub proof fn lemma_stop_events_end_the_loop(s: AeView, e: AeEvent)
    requires
        e is CmdDone || e is SelfRecvError,
    ensures
        ae_step(s, e).0.done,
        ae_step(s, e).1 == AeAction::Stop,
        ae_step(s, e).0.actors == s.actors,
{
}

} // verus!
