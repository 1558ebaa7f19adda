//! A manager of actors: it owns them and files each under its instance id,
//! its actor id, the ids of the protocols of its protocol set, and that
//! protocol set's id.
use vstd::prelude::*;
use std::collections::HashMap;
use crate::actor::Actor;
use crate::an_id::AnId;
use crate::registry::{
    idx_map, indices_below, lemma_push_idx_appends, lemma_push_idx_below, lemma_push_idx_keys_appends,
    lemma_push_idx_keys_below, list_of, push_idx, push_idx_keys,
    push_index, push_index_keys,
};
use crate::protocol::ProtocolSet;

verus! {

broadcast use vstd::std_specs::hash::group_hash_axioms;

/// The id of a manager.
#[derive(Clone, Copy, PartialEq, Eq, Hash, Debug, Structural)]
pub struct ManagerId(pub AnId);

/// Why an actor could not be added.
#[derive(Clone, Copy, PartialEq, Eq, Debug, Structural)]
pub enum ManagerError {
    /// An actor with that instance id was already added at `idx`.
    ActorAlreadyAdded { idx: usize },
}

/// The abstract state of a manager's maps.
pub struct ManagerView {
    pub len: nat,
    pub by_instance_id: Map<u128, usize>,
    pub by_actor_id: Map<u128, Seq<usize>>,
    pub by_protocol_id: Map<u128, Seq<usize>>,
    pub by_protocol_set_id: Map<u128, Seq<usize>>,
}

/// Every index filed in the manager's maps names an actor it holds.
pub open spec fn manager_wf(v: ManagerView) -> bool {
    &&& forall|k: u128| #[trigger] v.by_instance_id.contains_key(k) ==> v.by_instance_id[k] < v.len
    &&& indices_below(v.by_actor_id, v.len)
    &&& indices_below(v.by_protocol_id, v.len)
    &&& indices_below(v.by_protocol_set_id, v.len)
}

/// The maps `v` after adding an actor with these ids and protocol set at
/// index `v.len`.
pub open spec fn manager_added(v: ManagerView, instance_id: AnId, actor_id: AnId, ps: ProtocolSet) -> ManagerView {
    let idx = v.len as usize;
    ManagerView {
        len: v.len + 1,
        by_instance_id: v.by_instance_id.insert(instance_id.0, idx),
        by_actor_id: push_idx(v.by_actor_id, actor_id.0, idx),
        by_protocol_id: push_idx_keys(v.by_protocol_id, ps.protocols_map@.dom(), idx),
        by_protocol_set_id: push_idx(v.by_protocol_set_id, ps.id.0.0, idx),
    }
}

/// Adding an actor whose instance id is new keeps every filed index naming
/// an actor the manager holds, and files the new actor under its instance
/// id at its own index.
pub proof fn lemma_manager_add_keeps_wf(v: ManagerView, instance_id: AnId, actor_id: AnId, ps: ProtocolSet)
    requires
        manager_wf(v),
        v.len < usize::MAX,
        !v.by_instance_id.contains_key(instance_id.0),
    ensures
        manager_wf(manager_added(v, instance_id, actor_id, ps)),
        manager_added(v, instance_id, actor_id, ps).by_instance_id[instance_id.0] == v.len as usize,
{
    lemma_push_idx_below(v.by_actor_id, actor_id.0, v.len);
    lemma_push_idx_keys_below(v.by_protocol_id, ps.protocols_map@.dom(), v.len);
    lemma_push_idx_below(v.by_protocol_set_id, ps.id.0.0, v.len);
}

/// Adding an actor at index `idx`, the number of actors before, files it
/// under its instance id at `idx`, and under its actor id, its protocol set
/// id and each id of its protocols: each of those lists is the list before
/// (none for a new key) with `idx` at its end. Every other key of every map
/// and its list stay as they were.
pub proof fn lemma_manager_add_files_actor(v: ManagerView, instance_id: AnId, actor_id: AnId, ps: ProtocolSet)
    ensures
        ({
            let n = manager_added(v, instance_id, actor_id, ps);
            let idx = v.len as usize;
            let ps_id = ps.id.0.0;
            &&& n.len == v.len + 1
            &&& n.by_instance_id == v.by_instance_id.insert(instance_id.0, idx)
            &&& n.by_actor_id.contains_key(actor_id.0)
            &&& n.by_actor_id[actor_id.0] == list_of(v.by_actor_id, actor_id.0).push(idx)
            &&& forall|j: u128| j != actor_id.0 ==> (#[trigger] n.by_actor_id.contains_key(j)
                == v.by_actor_id.contains_key(j))
            &&& forall|j: u128| j != actor_id.0 && #[trigger] v.by_actor_id.contains_key(j)
                ==> n.by_actor_id[j] == v.by_actor_id[j]
            &&& n.by_protocol_set_id.contains_key(ps_id)
            &&& n.by_protocol_set_id[ps_id] == list_of(v.by_protocol_set_id, ps_id).push(idx)
            &&& forall|j: u128| j != ps_id ==> (#[trigger] n.by_protocol_set_id.contains_key(j)
                == v.by_protocol_set_id.contains_key(j))
            &&& forall|j: u128| j != ps_id && #[trigger] v.by_protocol_set_id.contains_key(j)
                ==> n.by_protocol_set_id[j] == v.by_protocol_set_id[j]
            &&& forall|p: u128| #[trigger] ps.protocols_map@.contains_key(p) ==> n.by_protocol_id.contains_key(p)
                && n.by_protocol_id[p] == list_of(v.by_protocol_id, p).push(idx)
            &&& forall|p: u128| !ps.protocols_map@.contains_key(p) ==> (#[trigger] n.by_protocol_id.contains_key(p)
                == v.by_protocol_id.contains_key(p))
            &&& forall|p: u128| !ps.protocols_map@.contains_key(p) && #[trigger] v.by_protocol_id.contains_key(p)
                ==> n.by_protocol_id[p] == v.by_protocol_id[p]
        }),
{
    let idx = v.len as usize;
    lemma_push_idx_appends(v.by_actor_id, actor_id.0, idx);
    lemma_push_idx_appends(v.by_protocol_set_id, ps.id.0.0, idx);
    lemma_push_idx_keys_appends(v.by_protocol_id, ps.protocols_map@.dom(), idx);
}

/// A manager.
#[derive(Debug)]
pub struct Manager<A> {
    pub name: String,
    pub id: ManagerId,
    pub actors: Vec<A>,
    pub actors_map_by_instance_id: HashMap<u128, usize>,
    pub actors_map_by_actor_id: HashMap<u128, Vec<usize>>,
    pub actors_map_by_protocol_id: HashMap<u128, Vec<usize>>,
    pub actors_map_by_protocol_set_id: HashMap<u128, Vec<usize>>,
}

impl<A: Actor> Manager<A> {
    pub open spec fn view(&self) -> ManagerView {
        ManagerView {
            len: self.actors@.len(),
            by_instance_id: self.actors_map_by_instance_id@,
            by_actor_id: idx_map(self.actors_map_by_actor_id@),
            by_protocol_id: idx_map(self.actors_map_by_protocol_id@),
            by_protocol_set_id: idx_map(self.actors_map_by_protocol_set_id@),
        }
    }

    /// A manager named `name` with id `id` and no actors.
    pub fn new(name: &str, id: ManagerId) -> (m: Manager<A>)
        ensures
            m.name@ == name@,
            m.id == id,
            m.view() == (ManagerView {
                len: 0,
                by_instance_id: Map::empty(),
                by_actor_id: Map::empty(),
                by_protocol_id: Map::empty(),
                by_protocol_set_id: Map::empty(),
            }),
    {
        let m = Manager {
            name: String::from_str(name),
            id,
            actors: Vec::new(),
            actors_map_by_instance_id: HashMap::new(),
            actors_map_by_actor_id: HashMap::new(),
            actors_map_by_protocol_id: HashMap::new(),
            actors_map_by_protocol_set_id: HashMap::new(),
        };
        assert(m.view().by_actor_id =~= Map::empty());
        assert(m.view().by_protocol_id =~= Map::empty());
        assert(m.view().by_protocol_set_id =~= Map::empty());
        m
    }

    /// Adds `actor` at the next index and files it under its ids. Fails
    /// when its instance id was added before; the instance id is then filed
    /// under the index the actor would have had, and nothing else changes.
    pub fn add_actor(&mut self, actor: A) -> (r: Result<(), ManagerError>)
        ensures
            ({
                let o = old(self).view();
                let n = final(self).view();
                let idx = o.len as usize;
                let iid = actor.spec_instance_id().0;
                let ps = actor.spec_protocol_set();
                &&& final(self).name == old(self).name
                &&& final(self).id == old(self).id
                &&& o.by_instance_id.contains_key(iid) ==> {
                    &&& r == Err::<(), ManagerError>(ManagerError::ActorAlreadyAdded {
                        idx: o.by_instance_id[iid],
                    })
                    &&& n == ManagerView { by_instance_id: o.by_instance_id.insert(iid, idx), ..o }
                    &&& final(self).actors@ == old(self).actors@
                }
                &&& !o.by_instance_id.contains_key(iid) ==> {
                    &&& r is Ok
                    &&& final(self).actors@ == old(self).actors@.push(actor)
                    &&& n == manager_added(o, actor.spec_instance_id(), actor.spec_actor_id(), ps)
                }
            }),
    {
        let idx = self.actors.len();
        let iid = actor.get_instance_id().0;
        if let Some(prev) = self.actors_map_by_instance_id.insert(iid, idx) {
            return Err(ManagerError::ActorAlreadyAdded { idx: prev });
        }
        let aid = actor.get_actor_id().0;
        push_index(&mut self.actors_map_by_actor_id, aid, idx);
        push_index_keys(&mut self.actors_map_by_protocol_id, &actor.get_protocol_set().protocols_map, idx);
        let ps_id = actor.get_protocol_set().id.0.0;
        push_index(&mut self.actors_map_by_protocol_set_id, ps_id, idx);
        self.actors.push(actor);
        Ok(())
    }
}

} // verus!
