//! A name together with an id.
use vstd::prelude::*;
use crate::an_id::{is_random_uuid, uuid_str, AnId};

verus! {

/// A name together with an id.
#[derive(Debug)]
pub struct NameId {
    pub id: AnId,
    pub name: String,
}

impl Clone for NameId {
    fn clone(&self) -> (r: NameId)
        ensures
            r.id == self.id,
            r.name@ == self.name@,
    {
        NameId { id: self.id, name: self.name.clone() }
    }
}

impl NameId {
    /// The name `name` with the id `id`.
    pub fn new(name: &str, id: AnId) -> (n: NameId)
        ensures
            n.name@ == name@,
            n.id == id,
    {
        NameId { name: String::from_str(name), id }
    }

    /// The name `name` with a new random id.
    pub fn new_v4(name: &str) -> (n: NameId)
        ensures
            n.name@ == name@,
            is_random_uuid(n.id.0),
    {
        NameId::new(name, AnId::new())
    }

    pub fn id(&self) -> (r: &AnId)
        ensures
            *r == self.id,
    {
        &self.id
    }

    /// `<name>-<first 8 characters of the id>`.
    pub fn name(&self) -> (s: String)
        ensures
            s@ == self.name@ + "-"@ + uuid_str(self.id.0).subrange(0, 8),
    {
        let mut s = self.name.clone();
        s.append("-");
        s.append(self.id.to_short_string().as_str());
        s
    }

    /// The name alone.
    pub fn just_name(&self) -> (r: &str)
        ensures
            r@ == self.name@,
    {
        self.name.as_str()
    }

    /// `<name>-<id>`.
    pub fn full_name(&self) -> (s: String)
        ensures
            s@ == self.name@ + "-"@ + uuid_str(self.id.0),
    {
        let mut s = self.name.clone();
        s.append("-");
        s.append(self.id.to_string().as_str());
        s
    }
}

} // verus!
