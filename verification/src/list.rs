//! A named list that owns its tasks and hands each a numeric key.

use crate::entertainment::Book;
use crate::state::State;
use crate::task::Task;
use crate::text::starts_with;
use std::collections::HashMap;
use vstd::prelude::*;
use vstd::std_specs::iter::IteratorSpec;

verus! {

/// The key that the next task added to `tasks` receives: one more than the
/// number of tasks held.
pub open spec fn next_key<T>(tasks: Map<usize, T>) -> usize {
    (tasks.len() + 1) as usize
}

/// `tasks` after `task` was added under the next key. A task that already
/// sat under that key is replaced.
pub open spec fn with_added<T>(tasks: Map<usize, T>, task: T) -> Map<usize, T> {
    tasks.insert(next_key(tasks), task)
}

/// `tasks` after the task under `id` was completed: it leaves its key and
/// comes back, completed, under the next key of what remained. Without a
/// task under `id` nothing changes.
pub open spec fn with_completed<T: Task>(tasks: Map<usize, T>, id: usize) -> Map<usize, T> {
    if tasks.contains_key(id) {
        with_added(tasks.remove(id), tasks[id].completed())
    } else {
        tasks
    }
}

/// `tasks` after the tasks of `more` were added one after the other.
pub open spec fn with_all_added<T>(tasks: Map<usize, T>, more: Seq<T>) -> Map<usize, T>
    decreases more.len(),
{
    if more.len() == 0 {
        tasks
    } else {
        with_added(with_all_added(tasks, more.drop_last()), more.last())
    }
}

/// Whether the keys of `tasks` are the numbers from 1 to the number of tasks.
pub open spec fn numbered_from_one<T>(tasks: Map<usize, T>) -> bool {
    forall|k: usize| #[trigger] tasks.contains_key(k) <==> 1 <= k <= tasks.len()
}

/// Whether `keys` names the tasks of `tasks` that satisfy `keep`: each of
/// them once, and no other key.
pub open spec fn names_kept<T>(tasks: Map<usize, T>, keep: spec_fn(T) -> bool, keys: Seq<usize>) -> bool {
    &&& keys.no_duplicates()
    &&& forall|k: usize| #[trigger] keys.contains(k) <==> tasks.contains_key(k) && keep(tasks[k])
}

/// Whether `found` holds the tasks of `tasks` that satisfy `keep`: each of
/// them once, in some order, and nothing else.
pub open spec fn gathers<T>(tasks: Map<usize, T>, keep: spec_fn(T) -> bool, found: Seq<&T>) -> bool {
    exists|keys: Seq<usize>|
        {
            &&& #[trigger] names_kept(tasks, keep, keys)
            &&& found.len() == keys.len()
            &&& forall|j: int| 0 <= j < keys.len() ==> *#[trigger] found[j] == tasks[keys[j]]
        }
}

/// A named collection of tasks, each under a numeric key.
#[derive(Clone, Debug)]
pub struct TaskList<T> {
    name: String,
    tasks: HashMap<usize, T>,
}

impl<T> View for TaskList<T> {
    type V = Map<usize, T>;

    /// The tasks by key.
    closed spec fn view(&self) -> Map<usize, T> {
        self.tasks@
    }
}

impl<T> TaskList<T> {
    /// The list's name.
    pub closed spec fn label(&self) -> Seq<char> {
        self.name@
    }

    /// A list holds finitely many tasks, and no more than `usize` counts.
    pub proof fn lemma_holds_finitely_many(&self)
        ensures
            self@.dom().finite(),
            self@.len() <= usize::MAX,
    {
        assert(self.tasks@.len() == self.tasks.len());
    }

    /// An empty list with the given name.
    pub fn new(name: &str) -> (list: Self)
        ensures
            list@ == Map::<usize, T>::empty(),
            list.label() == name@,
    {
        Self { name: name.to_string(), tasks: HashMap::new() }
    }

    pub fn name(&self) -> (name: String)
        ensures
            name@ == self.label(),
    {
        self.name.clone()
    }

    /// Adds `task` under the next key: the number of tasks held, plus one.
    pub fn add(&mut self, task: T)
        requires
            old(self)@.len() < usize::MAX,
        ensures
            final(self)@ == with_added(old(self)@, task),
            final(self).label() == old(self).label(),
    {
        let key: usize = self.tasks.len() + 1;
        self.tasks.insert(key, task);
    }

    /// A walk over all tasks, in no particular order: it yields the task
    /// under each key once, and then ends.
    pub fn iter(&self) -> (all: impl Iterator<Item = &T>)
        ensures
            all.obeys_prophetic_iter_laws(),
            all.decrease() is Some,
            all.initial_value_relation(&all),
            gathers(self@, every(), all.remaining()),
    {
        let fits = |task: &T| -> (yes: bool)
            ensures
                yes,
            { true };
        self.select(fits, Ghost(every())).into_iter()
    }

    /// The tasks that `fits` accepts, in the order in which the map hands
    /// them out; `keep` says what `fits` decides.
    fn select<F: Fn(&T) -> bool>(&self, fits: F, Ghost(keep): Ghost<spec_fn(T) -> bool>) -> (found:
        Vec<&T>)
        requires
            forall|task: &T| call_requires(fits, (task,)),
            forall|task: &T, yes: bool| call_ensures(fits, (task,), yes) ==> yes == keep(*task),
        ensures
            gathers(self@, keep, found@),
    {
        let ghost tasks = self.tasks@;
        let ghost walk = self.tasks.iter().remaining();
        let ghost mut seen: int = 0;
        let ghost mut keys: Seq<usize> = Seq::empty();
        let mut found: Vec<&T> = Vec::new();
        for entry in it: self.tasks.iter()
            invariant
                forall|task: &T| call_requires(fits, (task,)),
                forall|task: &T, yes: bool| call_ensures(fits, (task,), yes) ==> yes == keep(*task),
                it.seq() == walk,
                it.index() == seen,
                // The walk passes each entry of the map once.
                walk.no_duplicates(),
                forall|p: int|
                    0 <= p < walk.len() ==> tasks.contains_key(*(#[trigger] walk[p]).0)
                        && tasks[*walk[p].0] == *walk[p].1,
                // `keys` names what was found so far, each task once.
                keys.no_duplicates(),
                found@.len() == keys.len(),
                forall|j: int|
                    0 <= j < keys.len() ==> tasks.contains_key(#[trigger] keys[j]) && keep(
                        tasks[keys[j]],
                    ) && *found@[j] == tasks[keys[j]],
                // Every fitting task that the walk has passed was found,
                forall|p: int|
                    0 <= p < seen && keep(tasks[*(#[trigger] walk[p]).0]) ==> keys.contains(
                        *walk[p].0,
                    ),
                // and none that it has yet to reach.
                forall|p: int| seen <= p < walk.len() ==> !keys.contains(*(#[trigger] walk[p]).0),
        {
            let (key, task) = entry;
            proof {
                assert(entry == walk[seen]);
                assert forall|p: int| seen < p < walk.len() implies *(#[trigger] walk[p]).0
                    != *key by {
                    if *walk[p].0 == *key {
                        assert(walk[p] == walk[seen]);
                    }
                }
                seen = seen + 1;
            }
            if fits(task) {
                found.push(task);
                proof {
                    let earlier = keys;
                    keys = keys.push(*key);
                    assert(keys[keys.len() - 1] == *key);
                    assert forall|k: usize| earlier.contains(k) implies keys.contains(k) by {
                        let j = choose|j: int| 0 <= j < earlier.len() && earlier[j] == k;
                        assert(keys[j] == k);
                    }
                }
            }
        }
        proof {
            assert forall|k: usize| tasks.contains_key(k) && keep(tasks[k]) implies keys.contains(
                k,
            ) by {
                assert(walk.contains((&k, &tasks[k])));
                let p = choose|p: int| 0 <= p < walk.len() && walk[p] == (&k, &tasks[k]);
                assert(*walk[p].0 == k);
            }
            assert(names_kept(tasks, keep, keys));
        }
        found
    }

    /// The tasks by key, as the list holds them.
    pub fn entries(&self) -> (entries: &HashMap<usize, T>)
        ensures
            entries@ == self@,
    {
        &self.tasks
    }

    /// A list with the given name that holds `entries` under their keys.
    pub fn with_entries(name: &str, entries: HashMap<usize, T>) -> (list: Self)
        ensures
            list@ == entries@,
            list.label() == name@,
    {
        Self { name: name.to_string(), tasks: entries }
    }

    /// The task under `id`, if there is one.
    pub fn get(&self, id: usize) -> (found: Option<&T>)
        ensures
            found == if self@.contains_key(id) {
                Some(&self@[id])
            } else {
                None
            },
    {
        self.tasks.get(&id)
    }
}

/// Every task.
pub open spec fn every<T>() -> spec_fn(T) -> bool {
    |task: T| true
}

/// The books whose title begins with `prefix`.
pub open spec fn title_begins(prefix: Seq<char>) -> spec_fn(Book) -> bool {
    |book: Book| prefix.is_prefix_of(book@.title)
}

/// The books whose author's name begins with `prefix`.
pub open spec fn author_begins(prefix: Seq<char>) -> spec_fn(Book) -> bool {
    |book: Book| prefix.is_prefix_of(book@.author)
}

impl TaskList<Book> {
    /// The books whose title begins with `title`, exactly as written.
    pub fn search_titles(&self, title: &str) -> (found: Vec<&Book>)
        ensures
            gathers(self@, title_begins(title@), found@),
    {
        let fits = |book: &Book| -> (yes: bool)
            ensures
                yes == title@.is_prefix_of(book@.title),
            { starts_with(book.title(), title) };
        self.select(fits, Ghost(title_begins(title@)))
    }

    /// The books whose author's name begins with `author`, exactly as written.
    pub fn search_author(&self, author: &str) -> (found: Vec<&Book>)
        ensures
            gathers(self@, author_begins(author@), found@),
    {
        let fits = |book: &Book| -> (yes: bool)
            ensures
                yes == author@.is_prefix_of(book@.author),
            { starts_with(book.author(), author) };
        self.select(fits, Ghost(author_begins(author@)))
    }
}

impl<T> TaskList<T> where T: Task {
    /// Completes the task under `id` and files it under the next key: the
    /// number of tasks that remain without it, plus one. A task that sat
    /// under that key is replaced. Without a task under `id` nothing happens.
    pub fn complete(&mut self, id: usize)
        ensures
            final(self)@ == with_completed(old(self)@, id),
            final(self).label() == old(self).label(),
    {
        let ghost held = self.tasks.len();
        if let Some(task) = self.tasks.remove(&id) {
            assert(self@.len() < held);
            self.add(task.complete())
        }
    }
}

/// Adding to a list whose keys run from 1 loses nothing: the new task gets
/// the number after the last, and the keys still run from 1.
pub proof fn lemma_add_numbers_on<T>(tasks: Map<usize, T>, task: T)
    requires
        tasks.dom().finite(),
        tasks.len() < usize::MAX,
        numbered_from_one(tasks),
    ensures
        !tasks.contains_key(next_key(tasks)),
        next_key(tasks) == tasks.len() + 1,
        with_added(tasks, task).len() == tasks.len() + 1,
        numbered_from_one(with_added(tasks, task)),
        forall|k: usize| tasks.contains_key(k) ==> with_added(tasks, task)[k] == tasks[k],
{
    let key = next_key(tasks);
    let after = with_added(tasks, task);
    assert forall|k: usize| #[trigger] after.contains_key(k) <==> 1 <= k <= after.len() by {
        if k != key {
            assert(after.contains_key(k) == tasks.contains_key(k));
        }
    }
}

/// Tasks added to an empty list get the keys 1, 2, 3 and so on, in the
/// order in which they were added.
pub proof fn lemma_added_in_order<T>(more: Seq<T>)
    requires
        more.len() <= usize::MAX,
    ensures
        with_all_added(Map::<usize, T>::empty(), more).dom().finite(),
        with_all_added(Map::<usize, T>::empty(), more).len() == more.len(),
        numbered_from_one(with_all_added(Map::<usize, T>::empty(), more)),
        forall|i: int|
            0 <= i < more.len() ==> #[trigger] with_all_added(Map::<usize, T>::empty(), more)[(i
                + 1) as usize] == more[i],
    decreases more.len(),
{
    let empty = Map::<usize, T>::empty();
    let all = with_all_added(empty, more);
    if more.len() == 0 {
        assert(all == empty);
    } else {
        let before = with_all_added(empty, more.drop_last());
        lemma_added_in_order(more.drop_last());
        lemma_add_numbers_on(before, more.last());
        assert forall|i: int| 0 <= i < more.len() implies #[trigger] all[(i + 1) as usize]
            == more[i] by {
            if i < more.len() - 1 {
                assert(before.contains_key((i + 1) as usize));
                assert(before[(i + 1) as usize] == more.drop_last()[i]);
            }
        }
    }
}

/// Completing a task whose key differs from the number of tasks held moves
/// it: it is found, completed, under the key that equals that number, and no
/// longer under its old key.
pub proof fn lemma_complete_moves_task<T: Task>(tasks: Map<usize, T>, id: usize)
    requires
        tasks.dom().finite(),
        tasks.len() <= usize::MAX,
        tasks.contains_key(id),
        id != tasks.len(),
    ensures
        next_key(tasks.remove(id)) == tasks.len(),
        with_completed(tasks, id).contains_key(next_key(tasks.remove(id))),
        with_completed(tasks, id)[next_key(tasks.remove(id))] == tasks[id].completed(),
        with_completed(tasks, id)[next_key(tasks.remove(id))].state() == State::Complete,
        !with_completed(tasks, id).contains_key(id),
{
    tasks[id].lemma_completed_is_complete();
}

/// Completing the task whose key equals the number of tasks held leaves it,
/// completed, under that same key.
pub proof fn lemma_complete_keeps_latest_key<T: Task>(tasks: Map<usize, T>, id: usize)
    requires
        tasks.dom().finite(),
        tasks.len() <= usize::MAX,
        tasks.contains_key(id),
        id == tasks.len(),
    ensures
        with_completed(tasks, id) == tasks.insert(id, tasks[id].completed()),
        with_completed(tasks, id)[id].state() == State::Complete,
{
    tasks[id].lemma_completed_is_complete();
    assert(with_completed(tasks, id) =~= tasks.insert(id, tasks[id].completed()));
}

} // verus!
