//! Names of the states of an actor's state machine.
use vstd::prelude::*;

verus! {

/// State information: the name of a state.
#[derive(Debug)]
pub struct StateInfo {
    pub name: String,
}

} // verus!
