//! The lifecycle vocabulary shared by every kind of task.

use vstd::prelude::*;

verus! {

/// Where a task stands in its lifecycle.
#[derive(Debug, PartialEq, Eq, Structural)]
pub enum State {
    Complete,
    Started,
    Stopped,
}

impl Clone for State {
    fn clone(&self) -> (copy: Self)
        ensures
            copy == *self,
    {
        match self {
            State::Complete => State::Complete,
            State::Started => State::Started,
            State::Stopped => State::Stopped,
        }
    }
}

} // verus!
