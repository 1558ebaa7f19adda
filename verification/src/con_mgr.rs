//! The connection manager: the registry of the actors of a system, and its
//! answers to the messages it gets.
use vstd::prelude::*;
use std::collections::HashMap;
use vstd::hash_map::StringHashMap;
use crate::actor::Actor;
use crate::an_id::{is_random_uuid, AnId};
use crate::msg_header::MsgHeader;
use crate::msgs::{CmdInit, EchoReq, EchoRsp};
use crate::protocol::{Protocol, ProtocolSet, ProtocolSetId};
use crate::registry::{
    idx_map, indices_below, lemma_push_idx_appends, lemma_push_idx_below, lemma_push_idx_keys_appends,
    lemma_push_idx_keys_below, list_of, push_idx, push_idx_keys,
    push_index, push_index_by_name, push_index_keys,
};
use crate::state_info::StateInfo;

verus! {

broadcast use vstd::std_specs::hash::group_hash_axioms;

pub const CON_MGR_REGISTER_ACTOR_REQ_ID_STR: &'static str = "6a1f9e3b-84c2-4d57-a0e9-3b7c5d2f1e86";
pub const CON_MGR_REGISTER_ACTOR_REQ_ID: u128 = 0x6a1f9e3b_84c2_4d57_a0e9_3b7c5d2f1e86;

/// Asks the connection manager to register an actor.
#[derive(Debug)]
pub struct ConMgrRegisterActorReq {
    pub header: MsgHeader,
    pub name: String,
    pub id: AnId,
    pub instance_id: AnId,
    pub protocol_set: ProtocolSet,
}

impl ConMgrRegisterActorReq {
    pub fn new(
        dst_id: &AnId,
        src_id: &AnId,
        name: &str,
        id: &AnId,
        instance_id: &AnId,
        protocol_set: &ProtocolSet,
    ) -> (m: ConMgrRegisterActorReq)
        ensures
            m.header == MsgHeader::spec_new(AnId(CON_MGR_REGISTER_ACTOR_REQ_ID), *dst_id, *src_id),
            m.name@ == name@,
            m.id == *id,
            m.instance_id == *instance_id,
            m.protocol_set.name@ == protocol_set.name@,
            m.protocol_set.id == protocol_set.id,
            m.protocol_set.protocols_map@ == protocol_set.protocols_map@,
    {
        ConMgrRegisterActorReq {
            header: MsgHeader::new(AnId(CON_MGR_REGISTER_ACTOR_REQ_ID), *dst_id, *src_id),
            name: String::from_str(name),
            id: *id,
            instance_id: *instance_id,
            protocol_set: protocol_set.clone(),
        }
    }
}

pub const CON_MGR_REGISTER_ACTOR_RSP_ID_STR: &'static str = "db6a401d-5d2b-4b8d-9c8f-2a4f0e6c1b37";
pub const CON_MGR_REGISTER_ACTOR_RSP_ID: u128 = 0xdb6a401d_5d2b_4b8d_9c8f_2a4f0e6c1b37;

/// The outcome of a registration.
#[derive(Clone, Copy, PartialEq, Eq, Debug, Structural)]
pub enum ConMgrRegisterActorStatus {
    Success,
    ActorAlreadyRegistered,
}

/// The answer to a `ConMgrRegisterActorReq`.
#[derive(Clone, Copy, PartialEq, Eq, Debug, Structural)]
pub struct ConMgrRegisterActorRsp {
    pub header: MsgHeader,
    pub status: ConMgrRegisterActorStatus,
}

impl ConMgrRegisterActorRsp {
    pub fn new(dst_id: &AnId, src_id: &AnId, status: ConMgrRegisterActorStatus) -> (m:
        ConMgrRegisterActorRsp)
        ensures
            m.header == MsgHeader::spec_new(AnId(CON_MGR_REGISTER_ACTOR_RSP_ID), *dst_id, *src_id),
            m.status == status,
    {
        ConMgrRegisterActorRsp {
            header: MsgHeader::new(AnId(CON_MGR_REGISTER_ACTOR_RSP_ID), *dst_id, *src_id),
            status,
        }
    }
}

/// Why an actor could not be registered.
#[derive(Clone, Copy, PartialEq, Eq, Debug, Structural)]
pub enum ConMgrError {
    /// An actor with that instance id was already registered at `idx`.
    ActorAlreadyAdded { idx: usize },
}

/// The states of the connection manager.
#[derive(Clone, Copy, PartialEq, Eq, Debug, Structural)]
pub enum ConMgrState {
    State0,
}

/// The abstract state of a connection manager's registry.
pub struct ConMgrRegistryView {
    /// The number of registered channels.
    pub len: nat,
    /// Registration index of each instance id.
    pub by_instance_id: Map<u128, usize>,
    /// Registration indices of each actor name.
    pub by_name: Map<Seq<char>, Seq<usize>>,
    /// Registration indices of each actor id.
    pub by_id: Map<u128, Seq<usize>>,
    /// Registration indices of each protocol set id.
    pub by_protocol_set_id: Map<u128, Seq<usize>>,
    /// Registration indices of each protocol id.
    pub by_protocol_id: Map<u128, Seq<usize>>,
}

/// The registry `r` after the registration of `msg`: its index is `r.len`.
pub open spec fn registered(r: ConMgrRegistryView, msg: &ConMgrRegisterActorReq) -> ConMgrRegistryView {
    let idx = r.len as usize;
    let ps_id = msg.protocol_set.id.0.0;
    ConMgrRegistryView {
        len: r.len + 1,
        by_instance_id: r.by_instance_id.insert(msg.instance_id.0, idx),
        by_name: push_idx(r.by_name, msg.name@, idx),
        by_id: push_idx(r.by_id, msg.id.0, idx),
        by_protocol_set_id: push_idx(r.by_protocol_set_id, ps_id, idx),
        by_protocol_id: if r.by_protocol_set_id.contains_key(ps_id) {
            r.by_protocol_id
        } else {
            push_idx_keys(r.by_protocol_id, msg.protocol_set.protocols_map@.dom(), idx)
        },
    }
}

/// The registry `r` after a refused registration of `msg`: the instance id
/// is filed under the index the actor would have had, and nothing else
/// changes.
pub open spec fn refused(r: ConMgrRegistryView, msg: &ConMgrRegisterActorReq) -> ConMgrRegistryView {
    ConMgrRegistryView {
        by_instance_id: r.by_instance_id.insert(msg.instance_id.0, r.len as usize),
        ..r
    }
}

/// Every index filed in the registry names a registered channel.
pub open spec fn registry_wf(r: ConMgrRegistryView) -> bool {
    &&& forall|k: u128| #[trigger] r.by_instance_id.contains_key(k) ==> r.by_instance_id[k] < r.len
    &&& indices_below(r.by_name, r.len)
    &&& indices_below(r.by_id, r.len)
    &&& indices_below(r.by_protocol_set_id, r.len)
    &&& indices_below(r.by_protocol_id, r.len)
}

/// A registration that succeeds keeps every filed index naming a
/// registered channel.
pub proof fn lemma_registration_keeps_registry_wf(r: ConMgrRegistryView, msg: &ConMgrRegisterActorReq)
    requires
        registry_wf(r),
        r.len < usize::MAX,
        !r.by_instance_id.contains_key(msg.instance_id.0),
    ensures
        registry_wf(registered(r, msg)),
{
    lemma_push_idx_below(r.by_name, msg.name@, r.len);
    lemma_push_idx_below(r.by_id, msg.id.0, r.len);
    lemma_push_idx_below(r.by_protocol_set_id, msg.protocol_set.id.0.0, r.len);
    lemma_push_idx_keys_below(r.by_protocol_id, msg.protocol_set.protocols_map@.dom(), r.len);
    assert(indices_below(r.by_protocol_id, r.len + 1));
}

/// A registration at index `idx`, the number of channels before, files the
/// actor under its instance id at `idx`, and under its name, its actor id and
/// its protocol set id, each list being the list before (none for a new key)
/// with `idx` at its end. Where its protocol set id is new, every id of its
/// protocols is filed the same way; where it is not, the protocol ids stay as
/// they were. Every other key of every map and its list stay as they were.
pub proof fn lemma_registration_files_actor(r: ConMgrRegistryView, msg: &ConMgrRegisterActorReq)
    ensures
        ({
            let n = registered(r, msg);
            let idx = r.len as usize;
            let ps_id = msg.protocol_set.id.0.0;
            let pm = msg.protocol_set.protocols_map@;
            &&& n.len == r.len + 1
            &&& n.by_instance_id == r.by_instance_id.insert(msg.instance_id.0, idx)
            &&& n.by_name.contains_key(msg.name@)
            &&& n.by_name[msg.name@] == list_of(r.by_name, msg.name@).push(idx)
            &&& forall|j: Seq<char>| j != msg.name@ ==> (#[trigger] n.by_name.contains_key(j)
                == r.by_name.contains_key(j))
            &&& forall|j: Seq<char>| j != msg.name@ && #[trigger] r.by_name.contains_key(j)
                ==> n.by_name[j] == r.by_name[j]
            &&& n.by_id.contains_key(msg.id.0)
            &&& n.by_id[msg.id.0] == list_of(r.by_id, msg.id.0).push(idx)
            &&& forall|j: u128| j != msg.id.0 ==> (#[trigger] n.by_id.contains_key(j) == r.by_id.contains_key(j))
            &&& forall|j: u128| j != msg.id.0 && #[trigger] r.by_id.contains_key(j) ==> n.by_id[j] == r.by_id[j]
            &&& n.by_protocol_set_id.contains_key(ps_id)
            &&& n.by_protocol_set_id[ps_id] == list_of(r.by_protocol_set_id, ps_id).push(idx)
            &&& forall|j: u128| j != ps_id ==> (#[trigger] n.by_protocol_set_id.contains_key(j)
                == r.by_protocol_set_id.contains_key(j))
            &&& forall|j: u128| j != ps_id && #[trigger] r.by_protocol_set_id.contains_key(j)
                ==> n.by_protocol_set_id[j] == r.by_protocol_set_id[j]
            &&& !r.by_protocol_set_id.contains_key(ps_id) ==> {
                &&& forall|p: u128| #[trigger] pm.contains_key(p) ==> n.by_protocol_id.contains_key(p)
                    && n.by_protocol_id[p] == list_of(r.by_protocol_id, p).push(idx)
                &&& forall|p: u128| !pm.contains_key(p) ==> (#[trigger] n.by_protocol_id.contains_key(p)
                    == r.by_protocol_id.contains_key(p))
                &&& forall|p: u128| !pm.contains_key(p) && #[trigger] r.by_protocol_id.contains_key(p)
                    ==> n.by_protocol_id[p] == r.by_protocol_id[p]
            }
            &&& r.by_protocol_set_id.contains_key(ps_id) ==> n.by_protocol_id == r.by_protocol_id
        }),
{
    let idx = r.len as usize;
    lemma_push_idx_appends(r.by_name, msg.name@, idx);
    lemma_push_idx_appends(r.by_id, msg.id.0, idx);
    lemma_push_idx_appends(r.by_protocol_set_id, msg.protocol_set.id.0.0, idx);
    lemma_push_idx_keys_appends(r.by_protocol_id, msg.protocol_set.protocols_map@.dom(), idx);
}

/// After a registration the actor's instance id is filed, at the index of
/// its channel; `add_actor` refuses an instance id that is filed, so a second
/// registration of that instance id is refused.
pub proof fn lemma_registered_instance_found(r: ConMgrRegistryView, msg: &ConMgrRegisterActorReq)
    ensures
        registered(r, msg).by_instance_id.contains_key(msg.instance_id.0),
        registered(r, msg).by_instance_id[msg.instance_id.0] == r.len as usize,
        registered(r, msg).len == r.len + 1,
{
}

/// What the connection manager can receive. The registration request
/// comes with the channel to the actor it registers.
pub enum ConMgrMsg<B> {
    RegisterActorReq(ConMgrRegisterActorReq, B),
    QueryReq,
    EchoReq(EchoReq),
    CmdInit(CmdInit),
    Other(MsgHeader),
}

/// What the connection manager sends back, to the sender of the message it
/// handled.
#[derive(Debug)]
pub enum ConMgrAction {
    SendRegisterActorRsp(ConMgrRegisterActorRsp),
    /// An answer to a query that lists no actor.
    SendEmptyQueryRsp,
    SendEchoRsp(EchoRsp),
    Nothing,
}

/// The connection manager.
pub struct ConMgr<B> {
    pub name: String,
    pub actor_id: AnId,
    pub instance_id: AnId,
    pub protocol_set: ProtocolSet,
    pub current_state: ConMgrState,
    pub vec_of_actor_bdlc: Vec<B>,
    pub actors_map_by_instance_id: HashMap<u128, usize>,
    pub actors_map_by_name: StringHashMap<Vec<usize>>,
    pub actors_map_by_id: HashMap<u128, Vec<usize>>,
    pub actors_map_by_protocol_set_id: HashMap<u128, Vec<usize>>,
    pub actors_map_by_protocol_id: HashMap<u128, Vec<usize>>,
}

/// Actor id of the connection manager.
pub const CON_MGR_ACTOR_ID: u128 = 0x3f82508e_7970_44e9_8fb9_b7936c9c4833;
/// Protocol set id of the connection manager.
pub const CON_MGR_PROTOCOL_SET_ID: u128 = 0xea140384_faa7_4599_9f7d_dd4c2380a5fb;
/// Name of the connection manager's protocol set.
pub const CON_MGR_PROTOCOL_SET_NAME: &'static str = "con_mgr_ps";

impl<B> ConMgr<B> {
    /// The abstract state of the registry.
    pub open spec fn registry(&self) -> ConMgrRegistryView {
        ConMgrRegistryView {
            len: self.vec_of_actor_bdlc@.len(),
            by_instance_id: self.actors_map_by_instance_id@,
            by_name: idx_map(self.actors_map_by_name@),
            by_id: idx_map(self.actors_map_by_id@),
            by_protocol_set_id: idx_map(self.actors_map_by_protocol_set_id@),
            by_protocol_id: idx_map(self.actors_map_by_protocol_id@),
        }
    }

    /// The registered channels, in registration order.
    pub open spec fn channels(&self) -> Seq<B> {
        self.vec_of_actor_bdlc@
    }

    /// A connection manager named `name` with a new random instance id;
    /// nothing is registered. Its protocol set is `con_mgr_ps`, made of the
    /// protocols `protocols_map`.
    pub fn new(name: &str, protocols_map: HashMap<u128, Protocol>) -> (c: ConMgr<B>)
        ensures
            c.name@ == name@,
            c.actor_id == AnId(CON_MGR_ACTOR_ID),
            is_random_uuid(c.instance_id.0),
            c.protocol_set.name@ == CON_MGR_PROTOCOL_SET_NAME@,
            c.protocol_set.id == ProtocolSetId(AnId(CON_MGR_PROTOCOL_SET_ID)),
            c.protocol_set.protocols_map@ == protocols_map@,
            c.current_state == ConMgrState::State0,
            c.registry() == (ConMgrRegistryView {
                len: 0,
                by_instance_id: Map::empty(),
                by_name: Map::empty(),
                by_id: Map::empty(),
                by_protocol_set_id: Map::empty(),
                by_protocol_id: Map::empty(),
            }),
    {
        let c = ConMgr {
            name: String::from_str(name),
            actor_id: AnId(CON_MGR_ACTOR_ID),
            instance_id: AnId::new(),
            protocol_set: ProtocolSet::new(
                CON_MGR_PROTOCOL_SET_NAME,
                ProtocolSetId(AnId(CON_MGR_PROTOCOL_SET_ID)),
                protocols_map,
            ),
            current_state: ConMgrState::State0,
            vec_of_actor_bdlc: Vec::new(),
            actors_map_by_instance_id: HashMap::new(),
            actors_map_by_name: StringHashMap::new(),
            actors_map_by_id: HashMap::new(),
            actors_map_by_protocol_set_id: HashMap::new(),
            actors_map_by_protocol_id: HashMap::new(),
        };
        assert(c.registry().by_name =~= Map::empty());
        assert(c.registry().by_id =~= Map::empty());
        assert(c.registry().by_protocol_set_id =~= Map::empty());
        assert(c.registry().by_protocol_id =~= Map::empty());
        c
    }

    /// The information about the current state.
    pub fn state_info(&self) -> (si: StateInfo)
        ensures
            si.name@ == "state0"@,
    {
        match self.current_state {
            ConMgrState::State0 => StateInfo { name: String::from_str("state0") },
        }
    }

    /// Registers the actor that `msg` describes, with its channel `bdlc`.
    ///
    /// Its index is the number of channels registered before. Fails when
    /// its instance id is already registered; the instance id is then filed
    /// under the index it would have had, and nothing else changes.
    pub fn add_actor(&mut self, msg: &ConMgrRegisterActorReq, bdlc: B) -> (r: Result<(), ConMgrError>)
        ensures
            old(self).registry().by_instance_id.contains_key(msg.instance_id.0) ==> {
                &&& r == Err::<(), ConMgrError>(ConMgrError::ActorAlreadyAdded {
                    idx: old(self).registry().by_instance_id[msg.instance_id.0],
                })
                &&& final(self).registry() == refused(old(self).registry(), msg)
                &&& final(self).channels() == old(self).channels()
            },
            !old(self).registry().by_instance_id.contains_key(msg.instance_id.0) ==> {
                &&& r is Ok
                &&& final(self).registry() == registered(old(self).registry(), msg)
                &&& final(self).channels() == old(self).channels().push(bdlc)
            },
            final(self).name == old(self).name,
            final(self).actor_id == old(self).actor_id,
            final(self).instance_id == old(self).instance_id,
            final(self).protocol_set == old(self).protocol_set,
            final(self).current_state == old(self).current_state,
    {
        let idx = self.vec_of_actor_bdlc.len();
        if let Some(prev) = self.actors_map_by_instance_id.insert(msg.instance_id.0, idx) {
            return Err(ConMgrError::ActorAlreadyAdded { idx: prev });
        }
        self.vec_of_actor_bdlc.push(bdlc);
        push_index_by_name(&mut self.actors_map_by_name, msg.name.as_str(), idx);
        push_index(&mut self.actors_map_by_id, msg.id.0, idx);
        let ps_id = msg.protocol_set.id.0.0;
        let first = !self.actors_map_by_protocol_set_id.contains_key(&ps_id);
        push_index(&mut self.actors_map_by_protocol_set_id, ps_id, idx);
        if first {
            push_index_keys(&mut self.actors_map_by_protocol_id, &msg.protocol_set.protocols_map, idx);
        }
        Ok(())
    }

    /// Handles one message in the current state. `dst_instance_id` is the
    /// instance id of the actor that sent it, to which any answer goes.
    ///
    /// A registration request registers the actor (`add_actor`) and is
    /// answered with `Success`, or `ActorAlreadyRegistered` where it fails;
    /// a query is answered with an empty list; an `EchoReq` is answered
    /// with an `EchoRsp` carrying its time stamp and counter; anything else
    /// is ignored.
    pub fn process_msg(&mut self, dst_instance_id: &AnId, msg: ConMgrMsg<B>) -> (a: ConMgrAction)
        ensures
            final(self).name == old(self).name,
            final(self).actor_id == old(self).actor_id,
            final(self).instance_id == old(self).instance_id,
            final(self).protocol_set == old(self).protocol_set,
            final(self).current_state == old(self).current_state,
            match msg {
                ConMgrMsg::RegisterActorReq(req, bdlc) => {
                    let dup = old(self).registry().by_instance_id.contains_key(req.instance_id.0);
                    &&& a == ConMgrAction::SendRegisterActorRsp(ConMgrRegisterActorRsp {
                        header: MsgHeader::spec_new(
                            AnId(CON_MGR_REGISTER_ACTOR_RSP_ID),
                            *dst_instance_id,
                            old(self).instance_id,
                        ),
                        status: if dup {
                            ConMgrRegisterActorStatus::ActorAlreadyRegistered
                        } else {
                            ConMgrRegisterActorStatus::Success
                        },
                    })
                    &&& dup ==> final(self).registry() == refused(old(self).registry(), &req)
                        && final(self).channels() == old(self).channels()
                    &&& !dup ==> final(self).registry() == registered(old(self).registry(), &req)
                        && final(self).channels() == old(self).channels().push(bdlc)
                },
                ConMgrMsg::EchoReq(req) => {
                    &&& a matches ConMgrAction::SendEchoRsp(rsp) && {
                        &&& rsp.header == MsgHeader::spec_new(
                            AnId(crate::msgs::ECHO_RSP_ID),
                            *dst_instance_id,
                            old(self).instance_id,
                        )
                        &&& rsp.req_timestamp_ns == req.req_timestamp_ns
                        &&& rsp.counter == req.counter
                        &&& rsp.rsp_timestamp_ns >= 0
                    }
                    &&& final(self).registry() == old(self).registry()
                    &&& final(self).channels() == old(self).channels()
                },
                ConMgrMsg::QueryReq => {
                    &&& a == ConMgrAction::SendEmptyQueryRsp
                    &&& final(self).registry() == old(self).registry()
                    &&& final(self).channels() == old(self).channels()
                },
                _ => {
                    &&& a == ConMgrAction::Nothing
                    &&& final(self).registry() == old(self).registry()
                    &&& final(self).channels() == old(self).channels()
                },
            },
    {
        match msg {
            ConMgrMsg::RegisterActorReq(req, bdlc) => {
                let status = match self.add_actor(&req, bdlc) {
                    Ok(()) => ConMgrRegisterActorStatus::Success,
                    Err(_) => ConMgrRegisterActorStatus::ActorAlreadyRegistered,
                };
                ConMgrAction::SendRegisterActorRsp(
                    ConMgrRegisterActorRsp::new(dst_instance_id, &self.instance_id, status),
                )
            },
            ConMgrMsg::QueryReq => ConMgrAction::SendEmptyQueryRsp,
            ConMgrMsg::EchoReq(req) => ConMgrAction::SendEchoRsp(
                EchoRsp::new(dst_instance_id, &self.instance_id, req.req_timestamp_ns, req.counter),
            ),
            ConMgrMsg::CmdInit(_) => ConMgrAction::Nothing,
            ConMgrMsg::Other(_) => ConMgrAction::Nothing,
        }
    }
}


impl<B> Actor for ConMgr<B> {
    open spec fn spec_name(&self) -> Seq<char> {
        self.name@
    }

    open spec fn spec_actor_id(&self) -> AnId {
        self.actor_id
    }

    open spec fn spec_instance_id(&self) -> AnId {
        self.instance_id
    }

    open spec fn spec_protocol_set(&self) -> ProtocolSet {
        self.protocol_set
    }

    fn get_name(&self) -> (r: &str) {
        self.name.as_str()
    }

    fn get_actor_id(&self) -> (r: &AnId) {
        &self.actor_id
    }

    fn get_instance_id(&self) -> (r: &AnId) {
        &self.instance_id
    }

    fn get_protocol_set(&self) -> (r: &ProtocolSet) {
        &self.protocol_set
    }

    /// A connection manager never reports that it is done.
    fn done(&self) -> (r: bool)
        ensures
            !r,
    {
        false
    }
}

} // verus!
