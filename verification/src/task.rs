//! The capability that anything stored in a task list provides.

use crate::state::State;
use vstd::prelude::*;

verus! {

/// An item with a label and a lifecycle that can be started and completed.
///
/// Each executable method has a ghost twin that says what it returns; the
/// transitions consume the task and hand back the new value.
pub trait Task: Sized {
    /// The label that `name` returns.
    spec fn label(&self) -> Seq<char>;

    /// The lifecycle state that `progress` returns.
    spec fn state(&self) -> State;

    /// The value that `complete` returns.
    spec fn completed(self) -> Self;

    /// The value that `start` returns.
    spec fn started(self) -> Self;

    /// A completed task is in state `Complete`.
    proof fn lemma_completed_is_complete(self)
        ensures
            self.completed().state() == State::Complete,
    ;

    /// A started task is no longer `Stopped`.
    proof fn lemma_started_is_begun(self)
        ensures
            self.started().state() != State::Stopped,
    ;

    /// Starting a task that is already begun or complete changes nothing.
    proof fn lemma_start_leaves_begun(self)
        ensures
            self.state() != State::Stopped ==> self.started() == self,
    ;

    /// Starting a task that was started before changes nothing.
    proof fn lemma_start_twice(self)
        ensures
            self.started().started() == self.started(),
    ;

    /// A human-readable label for the task.
    fn name(&self) -> (label: String)
        ensures
            label@ == self.label(),
    ;

    /// The current lifecycle state.
    fn progress(&self) -> (state: State)
        ensures
            state == self.state(),
    ;

    /// Finishes the task: the result is in state `Complete`.
    fn complete(self) -> (done: Self)
        ensures
            done == self.completed(),
            done.state() == State::Complete,
    ;

    /// Begins the task: the result is no longer `Stopped`. A task that is
    /// already begun or complete comes back as it was.
    fn start(self) -> (begun: Self)
        ensures
            begun == self.started(),
            begun.state() != State::Stopped,
            self.state() != State::Stopped ==> begun == self,
    ;
}

} // verus!
