//! An actor thread: a loop that waits on its control channel (operation 0
//! of its selector) and on the channel of each actor it added (operation
//! `i + 1` for the actor added `i`-th), adds actors on `AddActor`, and hands
//! each actor the messages that arrive for it; and its control messages.
use vstd::prelude::*;
use crate::an_id::AnId;
use crate::msg_header::MsgHeader;
use std::collections::HashMap;

verus! {

/// The id of an actor (shared by all actors of a kind).
#[derive(Clone, Copy, PartialEq, Eq, Hash, Debug, Structural)]
pub struct ActorId(pub AnId);

/// The id of one actor instance.
#[derive(Clone, Copy, PartialEq, Eq, Hash, Debug, Structural)]
pub struct ActorInstanceId(pub AnId);

pub const ADD_ACTOR_ID_STR: &'static str = "828ee6a0-488a-43b6-850a-537820c546ac";
pub const ADD_ACTOR_ID: u128 = 0x828ee6a0_488a_43b6_850a_537820c546ac;

/// Asks an actor thread to add an actor.
#[derive(Clone, Debug)]
pub struct AddActor {
    pub header: MsgHeader,
    pub actor: Box<ActorInstanceId>,
}

impl AddActor {
    pub fn new(actor: Box<ActorInstanceId>) -> (m: AddActor)
        ensures
            m.header == MsgHeader::spec_new_msg_id_only(AnId(ADD_ACTOR_ID)),
            m.actor == actor,
    {
        AddActor { header: MsgHeader::new_msg_id_only(AnId(ADD_ACTOR_ID)), actor }
    }
}

pub const REMOVE_ACTOR_ID_STR: &'static str = "1819dc5b-cfdb-439b-82a0-bf48a9f0ecd0";
pub const REMOVE_ACTOR_ID: u128 = 0x1819dc5b_cfdb_439b_82a0_bf48a9f0ecd0;

/// Asks an actor thread to remove an actor.
#[derive(Clone, Copy, PartialEq, Eq, Debug, Structural)]
pub struct RemoveActor {
    pub header: MsgHeader,
    pub actor_id: ActorId,
}

impl RemoveActor {
    pub fn new(actor_id: &ActorId) -> (m: RemoveActor)
        ensures
            m.header == MsgHeader::spec_new_msg_id_only(AnId(REMOVE_ACTOR_ID)),
            m.actor_id == *actor_id,
    {
        RemoveActor { header: MsgHeader::new_msg_id_only(AnId(REMOVE_ACTOR_ID)), actor_id: *actor_id }
    }
}

pub const REPLY_ACTOR_BI_DIR_CHANNEL_ID_STR: &'static str = "75922484-4974-44f9-8eca-1608d965f97e";
pub const REPLY_ACTOR_BI_DIR_CHANNEL_ID: u128 = 0x75922484_4974_44f9_8eca_1608d965f97e;

/// Carries the bidirectional channel of an added actor back to its owner.
/// Its header carries its own id: the ids of kinds of message are unique.
#[derive(Debug)]
pub struct ReplyActorBiDirChannel<C> {
    pub header: MsgHeader,
    pub bi_dir_channel: Box<C>,
}

impl<C> ReplyActorBiDirChannel<C> {
    pub fn new(bi_dir_channel: Box<C>) -> (m: Self)
        ensures
            m.header == MsgHeader::spec_new_msg_id_only(AnId(REPLY_ACTOR_BI_DIR_CHANNEL_ID)),
            m.bi_dir_channel == bi_dir_channel,
    {
        ReplyActorBiDirChannel {
            header: MsgHeader::new_msg_id_only(AnId(REPLY_ACTOR_BI_DIR_CHANNEL_ID)),
            bi_dir_channel,
        }
    }
}

/// What an actor thread's selector reported.
#[derive(Clone, Copy, PartialEq, Eq, Debug, Structural)]
pub enum AtEvent {
    /// An `AddActor` for the actor `instance_id` on the control channel.
    AddActor(ActorInstanceId),
    /// A `RemoveActor` on the control channel.
    RemoveActor(ActorId),
    /// Anything else on the control channel, or a failed receive there.
    CtrlOther,
    /// A message arrived on selector operation `oper_idx`, not 0.
    ActorMsg { oper_idx: usize },
}

/// What an actor thread does.
#[derive(Clone, Copy, PartialEq, Eq, Debug, Structural)]
pub enum AtAction {
    /// Make a channel for the new actor, keep one end at `actor_idx` and
    /// wait on it as selector operation `oper_idx`, and send the other end
    /// back on the control channel in a message with header `reply_header`.
    AddActor { actor_idx: usize, oper_idx: usize, reply_header: MsgHeader },
    /// Hand the message to the actor at `actor_idx`.
    Deliver { actor_idx: usize, instance_id: ActorInstanceId },
    /// Nothing to do.
    Ignore,
}

/// The abstract state of an actor thread: its actors in the order they were
/// added, and the index of each by instance id.
pub struct AtView {
    pub actors: Seq<ActorInstanceId>,
    pub by_instance_id: Map<u128, usize>,
}

/// An event an actor thread in state `s` can get: an actor's message comes
/// on an operation after the control channel's, and there is room for one
/// more actor.
pub open spec fn at_event_ok(s: AtView, e: AtEvent) -> bool {
    match e {
        AtEvent::AddActor(_) => s.actors.len() + 1 < usize::MAX,
        AtEvent::ActorMsg { oper_idx } => 1 <= oper_idx,
        _ => true,
    }
}

/// The next state and the action of an actor thread in state `s` on `e`.
pub open spec fn at_step(s: AtView, e: AtEvent) -> (AtView, AtAction) {
    match e {
        AtEvent::AddActor(iid) => {
            let idx = s.actors.len() as usize;
            (
                AtView {
                    actors: s.actors.push(iid),
                    by_instance_id: s.by_instance_id.insert(iid.0.0, idx),
                },
                AtAction::AddActor {
                    actor_idx: idx,
                    oper_idx: (idx + 1) as usize,
                    reply_header: MsgHeader::spec_new_msg_id_only(AnId(REPLY_ACTOR_BI_DIR_CHANNEL_ID)),
                },
            )
        },
        AtEvent::ActorMsg { oper_idx } => {
            let idx = oper_idx - 1;
            if idx < s.actors.len() {
                (s, AtAction::Deliver { actor_idx: idx as usize, instance_id: s.actors[idx] })
            } else {
                (s, AtAction::Ignore)
            }
        },
        _ => (s, AtAction::Ignore),
    }
}

/// The state of an actor thread.
#[derive(Debug)]
pub struct ActorThread {
    pub actors: Vec<ActorInstanceId>,
    pub actors_by_id_map: HashMap<u128, usize>,
}

impl ActorThread {
    pub open spec fn view(&self) -> AtView {
        AtView { actors: self.actors@, by_instance_id: self.actors_by_id_map@ }
    }

    /// An actor thread with no actors.
    pub fn new() -> (t: ActorThread)
        ensures
            t.view() == (AtView { actors: Seq::empty(), by_instance_id: Map::empty() }),
    {
        let t = ActorThread { actors: Vec::new(), actors_by_id_map: HashMap::new() };
        assert(t.view().actors =~= Seq::empty());
        t
    }

    /// Takes one event of the loop: the new state and the action are those
    /// of `at_step`.
    pub fn step(&mut self, e: AtEvent) -> (a: AtAction)
        requires
            at_event_ok(old(self).view(), e),
        ensures
            (final(self).view(), a) == at_step(old(self).view(), e),
    {
        match e {
            AtEvent::AddActor(iid) => {
                let idx = self.actors.len();
                self.actors_by_id_map.insert(iid.0.0, idx);
                self.actors.push(iid);
                AtAction::AddActor {
                    actor_idx: idx,
                    oper_idx: idx + 1,
                    reply_header: MsgHeader::new_msg_id_only(AnId(REPLY_ACTOR_BI_DIR_CHANNEL_ID)),
                }
            },
            AtEvent::ActorMsg { oper_idx } => {
                let idx = oper_idx - 1;
                if idx < self.actors.len() {
                    AtAction::Deliver { actor_idx: idx, instance_id: self.actors[idx] }
                } else {
                    AtAction::Ignore
                }
            },
            AtEvent::RemoveActor(_) => AtAction::Ignore,
            AtEvent::CtrlOther => AtAction::Ignore,
        }
    }
}

/// An actor that a thread adds is filed under its instance id at its index,
/// and a message on the selector operation after that index is handed to it.
pub proof fn lemma_added_actor_thread_delivers(s: AtView, iid: ActorInstanceId)
    requires
        s.actors.len() + 1 < usize::MAX,
    ensures
        ({
            let (s1, a1) = at_step(s, AtEvent::AddActor(iid));
            let oper = (s.actors.len() + 1) as usize;
            &&& a1 matches AtAction::AddActor { oper_idx, .. } && oper_idx == oper
            &&& s1.by_instance_id[iid.0.0] == s.actors.len()
            &&& at_step(s1, AtEvent::ActorMsg { oper_idx: oper }).1 == AtAction::Deliver {
                actor_idx: s.actors.len() as usize,
                instance_id: iid,
            }
        }),
{
}

} // verus!
