//! Todos: a subject and a lifecycle state that is stored as such.

use crate::state::State;
use crate::task::Task;
use vstd::prelude::*;
use vstd::std_specs::convert::FromSpecImpl;

verus! {

/// Something to do.
#[derive(Debug)]
pub struct Todo {
    id: Option<usize>,
    subject: String,
    status: State,
}

/// The mathematical content of a [`Todo`].
pub struct TodoView {
    pub id: Option<usize>,
    pub subject: Seq<char>,
    pub status: State,
}

impl TodoView {
    /// A todo as it is first written down: no identifier, not begun.
    pub open spec fn fresh(subject: Seq<char>) -> TodoView {
        TodoView { id: None, subject, status: State::Stopped }
    }

    /// The same todo in another state.
    pub open spec fn with_status(self, status: State) -> TodoView {
        TodoView { status, ..self }
    }

    /// The same todo, done.
    pub open spec fn completed(self) -> TodoView {
        self.with_status(State::Complete)
    }

    /// The same todo, begun if it was stopped; one that is begun or done
    /// stays as it is.
    pub open spec fn started(self) -> TodoView {
        if self.status == State::Stopped {
            self.with_status(State::Started)
        } else {
            self
        }
    }

    /// The todo written down afresh: the subject alone is kept.
    pub open spec fn paused(self) -> TodoView {
        TodoView::fresh(self.subject)
    }

    /// Started, paused and completed, a todo is complete under its old
    /// subject, and whatever identifier it had is gone.
    pub proof fn lemma_start_pause_complete(self)
        ensures
            self.started().paused().completed() == (TodoView {
                id: None,
                subject: self.subject,
                status: State::Complete,
            }),
    {
    }

    /// The same todo under the identifier `id`.
    pub open spec fn with_id(self, id: usize) -> TodoView {
        TodoView { id: Some(id), ..self }
    }
}

impl View for Todo {
    type V = TodoView;

    closed spec fn view(&self) -> TodoView {
        TodoView { id: self.id, subject: self.subject@, status: self.status }
    }
}

impl Todo {
    /// This todo in another state, and nothing else changed.
    pub closed spec fn with_status(self, status: State) -> Todo {
        Todo { status, ..self }
    }

    /// A change of state shows in the view as a change of state alone.
    pub broadcast proof fn lemma_with_status_view(self, status: State)
        ensures
            #[trigger] self.with_status(status)@ == self@.with_status(status),
    {
    }

    /// A todo with the given subject, without identifier, not begun.
    pub fn new(subject: &str) -> (todo: Self)
        ensures
            todo@ == TodoView::fresh(subject@),
    {
        Self { id: None, subject: subject.to_string(), status: State::Stopped }
    }

    /// Gives the todo the identifier under which its list keeps it.
    pub fn id(self, id: usize) -> (todo: Self)
        ensures
            todo@ == self@.with_id(id),
    {
        Self { id: Some(id), subject: self.subject, status: self.status }
    }

    /// The identifier, if one was assigned.
    pub fn assigned_id(&self) -> (id: Option<usize>)
        ensures
            id == self@.id,
    {
        self.id
    }

    pub fn subject(&self) -> (subject: String)
        ensures
            subject@ == self@.subject,
    {
        self.subject.clone()
    }

    /// Marks the todo as done; subject and identifier stay.
    pub fn complete(self) -> (done: Self)
        ensures
            done == self.with_status(State::Complete),
            done@ == self@.completed(),
    {
        Self { id: self.id, subject: self.subject, status: State::Complete }
    }

    /// Marks a stopped todo as begun; subject and identifier stay. A todo
    /// that is begun or done comes back as it was.
    pub fn start(self) -> (begun: Self)
        ensures
            begun == if self@.status == State::Stopped {
                self.with_status(State::Started)
            } else {
                self
            },
            begun@ == self@.started(),
    {
        match self.status {
            State::Stopped => Self { id: self.id, subject: self.subject, status: State::Started },
            _ => self,
        }
    }

    /// Writes the todo down afresh: the subject stays, the state goes back to
    /// `Stopped`, and an assigned identifier is dropped.
    pub fn pause(self) -> (reset: Self)
        ensures
            reset@ == self@.paused(),
    {
        Self::new(self.subject.as_str())
    }
}

impl Clone for Todo {
    fn clone(&self) -> (copy: Self)
        ensures
            copy == *self,
    {
        Self { id: self.id, subject: self.subject.clone(), status: self.status.clone() }
    }
}

impl From<&str> for Todo {
    fn from(value: &str) -> (todo: Self)
        ensures
            todo@ == TodoView::fresh(value@),
    {
        Todo::new(value)
    }
}

impl FromSpecImpl<&str> for Todo {
    /// The conversion allocates its subject, so no ghost value stands for
    /// its result; `from` states the result's view instead.
    open spec fn obeys_from_spec() -> bool {
        false
    }

    open spec fn from_spec(v: &str) -> Todo {
        arbitrary()
    }
}

impl Task for Todo {
    open spec fn label(&self) -> Seq<char> {
        self@.subject
    }

    open spec fn state(&self) -> State {
        self@.status
    }

    open spec fn completed(self) -> Todo {
        self.with_status(State::Complete)
    }

    open spec fn started(self) -> Todo {
        if self@.status == State::Stopped {
            self.with_status(State::Started)
        } else {
            self
        }
    }

    proof fn lemma_completed_is_complete(self) {
    }

    proof fn lemma_started_is_begun(self) {
    }

    proof fn lemma_start_leaves_begun(self) {
    }

    proof fn lemma_start_twice(self) {
    }

    /// A todo goes by its subject.
    fn name(&self) -> (label: String) {
        self.subject.clone()
    }

    fn progress(&self) -> (state: State) {
        self.status.clone()
    }

    fn complete(self) -> (done: Self)
        ensures
            done@ == self@.completed(),
    {
        let mut todo = self;
        todo.status = State::Complete;
        todo
    }

    fn start(self) -> (begun: Self)
        ensures
            begun@ == self@.started(),
    {
        let mut todo = self;
        match todo.status {
            State::Stopped => {
                todo.status = State::Started;
            },
            _ => {},
        }
        todo
    }
}

} // verus!
