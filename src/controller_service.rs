//! Messages exchanged with the remote-control page.
use vstd::prelude::*;

verus! {

/// An action the remote control offers: an identifier and its label.
#[derive(Debug)]
pub struct Action {
    pub id: String,
    pub description: String,
}

impl Action {
    pub fn new(id: String, description: String) -> (r: Action)
        ensures
            r.id@ == id@,
            r.description@ == description@,
    {
        Action { id, description }
    }
}

/// The actions on offer.
#[derive(Debug)]
pub struct ActionList {
    pub actions: Vec<Action>,
}

impl ActionList {
    pub fn new(actions: Vec<Action>) -> (r: ActionList)
        ensures
            r.actions@ == actions@,
    {
        ActionList { actions }
    }
}

/// The identifier of an action the remote control triggered.
#[derive(Debug)]
pub struct ActionIdWrapper {
    pub id: String,
}

} // verus!
