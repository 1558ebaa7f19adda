//! What every actor offers: its name and ids, and text forms built from them.
use vstd::prelude::*;
use crate::an_id::{uuid_str, AnId};
use crate::protocol::ProtocolSet;

verus! {

/// `<name><tag><id>`, the id in full.
pub open spec fn name_and_long_id(name: Seq<char>, tag: Seq<char>, id: AnId) -> Seq<char> {
    name + tag + uuid_str(id.0)
}

/// `<name><tag><first 8 characters of id>`.
pub open spec fn name_and_short_id(name: Seq<char>, tag: Seq<char>, id: AnId) -> Seq<char> {
    name + tag + uuid_str(id.0).subrange(0, 8)
}

/// The identity of an actor.
pub trait Actor {
    spec fn spec_name(&self) -> Seq<char>;

    spec fn spec_actor_id(&self) -> AnId;

    spec fn spec_instance_id(&self) -> AnId;

    spec fn spec_protocol_set(&self) -> ProtocolSet;

    fn get_name(&self) -> (r: &str)
        ensures
            r@ == self.spec_name(),
    ;

    fn get_actor_id(&self) -> (r: &AnId)
        ensures
            *r == self.spec_actor_id(),
    ;

    fn get_instance_id(&self) -> (r: &AnId)
        ensures
            *r == self.spec_instance_id(),
    ;

    fn get_protocol_set(&self) -> (r: &ProtocolSet)
        ensures
            *r == self.spec_protocol_set(),
    ;

    /// Whether the actor has finished.
    fn done(&self) -> bool;

    /// `<name>-iid:<first 8 characters of the instance id>`.
    fn get_name_and_short_instance_id(&self) -> (s: String)
        ensures
            s@ == name_and_short_id(self.spec_name(), "-iid:"@, self.spec_instance_id()),
    {
        let mut s = String::from_str(self.get_name());
        s.append("-iid:");
        s.append(self.get_instance_id().to_short_string().as_str());
        s
    }

    /// `<name>-iid:<instance id>`.
    fn get_name_and_long_instance_id(&self) -> (s: String)
        ensures
            s@ == name_and_long_id(self.spec_name(), "-iid:"@, self.spec_instance_id()),
    {
        let mut s = String::from_str(self.get_name());
        s.append("-iid:");
        s.append(self.get_instance_id().to_string().as_str());
        s
    }

    /// `<name>-aid:<first 8 characters of the actor id>`.
    fn get_name_and_short_actor_idid(&self) -> (s: String)
        ensures
            s@ == name_and_short_id(self.spec_name(), "-aid:"@, self.spec_actor_id()),
    {
        let mut s = String::from_str(self.get_name());
        s.append("-aid:");
        s.append(self.get_actor_id().to_short_string().as_str());
        s
    }

    /// `<name>-aid:<actor id>`.
    fn get_name_and_long_actor_id(&self) -> (s: String)
        ensures
            s@ == name_and_long_id(self.spec_name(), "-aid:"@, self.spec_actor_id()),
    {
        let mut s = String::from_str(self.get_name());
        s.append("-aid:");
        s.append(self.get_actor_id().to_string().as_str());
        s
    }
}

} // verus!
