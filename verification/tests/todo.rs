use task_tracker::{State, Task, TaskList, Todo};

#[test]
fn make_todo_add_to_list_and_find() {
    let mut todo_list = TaskList::new("My first list");
    let todo = Todo::from("Dishes");
    todo_list.add(todo);
}

#[test]
fn find_todo() {
    let mut todo_list = TaskList::new("My first list");
    let todo = Todo::from("Dishes");
    todo_list.add(todo);
    println!("{:?}", todo_list);
    // Keys are handed out from 1 on, so nothing sits under 0.
    assert!(todo_list.get(0).is_none());
    if let Some(found_todo) = todo_list.get(1) {
        assert_eq!(found_todo.subject(), "Dishes".to_string())
    } else {
        assert!(false)
    }
}

#[test]
fn make_new_todo_start_and_complete() {
    let todo = Todo::new("dishes").start().pause().complete();

    assert_eq!(todo.subject(), "dishes".to_string())
}

#[test]
fn new_todo_is_stopped_and_has_no_identifier() {
    let todo = Todo::new("dishes");
    assert_eq!(todo.subject(), "dishes");
    assert_eq!(todo.progress(), State::Stopped);
    assert_eq!(todo.assigned_id(), None);
    assert_eq!(todo.name(), "dishes");
}

#[test]
fn todo_from_str_is_a_new_todo() {
    let todo = Todo::from("Dishes");
    assert_eq!(todo.subject(), "Dishes");
    assert_eq!(todo.progress(), State::Stopped);
    assert_eq!(todo.assigned_id(), None);
}

#[test]
fn start_and_complete_keep_subject_and_identifier() {
    let todo = Todo::new("laundry").id(7);
    assert_eq!(todo.assigned_id(), Some(7));
    assert_eq!(todo.progress(), State::Stopped);

    let todo = todo.start();
    assert_eq!(todo.progress(), State::Started);
    assert_eq!(todo.assigned_id(), Some(7));
    assert_eq!(todo.subject(), "laundry");

    let todo = todo.complete();
    assert_eq!(todo.progress(), State::Complete);
    assert_eq!(todo.assigned_id(), Some(7));
    assert_eq!(todo.subject(), "laundry");
}

#[test]
fn todo_can_be_completed_without_being_started() {
    let todo = Todo::new("laundry").complete();
    assert_eq!(todo.progress(), State::Complete);
}

#[test]
fn start_pause_complete_ends_complete() {
    let todo = Todo::new("dishes").start().pause().complete();
    assert_eq!(todo.subject(), "dishes");
    assert_eq!(todo.progress(), State::Complete);
    assert_eq!(todo.assigned_id(), None);
}

// Known quirk: pausing writes the todo down afresh, so the identifier
// that a list had assigned does not survive it.
#[test]
fn pause_drops_an_assigned_identifier() {
    let todo = Todo::new("dishes").id(3).start();
    assert_eq!(todo.assigned_id(), Some(3));

    let paused = todo.pause();
    assert_eq!(paused.assigned_id(), None);
    assert_eq!(paused.progress(), State::Stopped);
    assert_eq!(paused.subject(), "dishes");

    let done = paused.complete();
    assert_eq!(done.subject(), "dishes");
    assert_eq!(done.progress(), State::Complete);
    assert_eq!(done.assigned_id(), None);
}

#[test]
fn starting_a_todo_twice_is_starting_it_once() {
    let once = Todo::new("dishes").id(2).start();
    let twice = once.clone().start();
    assert_eq!(twice.progress(), once.progress());
    assert_eq!(twice.subject(), once.subject());
    assert_eq!(twice.assigned_id(), once.assigned_id());
}

#[test]
fn task_transitions_of_a_todo_agree_with_its_own() {
    let begun = Task::start(Todo::new("dishes").id(4));
    assert_eq!(Task::progress(&begun), State::Started);
    assert_eq!(begun.assigned_id(), Some(4));

    let done = Task::complete(begun);
    assert_eq!(Task::progress(&done), State::Complete);
    assert_eq!(Task::name(&done), "dishes");
    assert_eq!(done.assigned_id(), Some(4));

    // A todo that is done stays done when it is started again.
    let again = Task::start(done);
    assert_eq!(Task::progress(&again), State::Complete);
    assert_eq!(Task::name(&again), "dishes");
    assert_eq!(again.assigned_id(), Some(4));
}

#[test]
fn starting_a_complete_todo_changes_nothing() {
    let done = Todo::new("dishes").id(5).complete();
    let again = done.start();
    assert_eq!(again.progress(), State::Complete);
    assert_eq!(again.subject(), "dishes");
    assert_eq!(again.assigned_id(), Some(5));
}

#[test]
fn starting_a_started_todo_changes_nothing() {
    let begun = Todo::new("dishes").id(6).start();
    let again = begun.start();
    assert_eq!(again.progress(), State::Started);
    assert_eq!(again.subject(), "dishes");
    assert_eq!(again.assigned_id(), Some(6));
}

#[test]
fn a_todo_never_goes_back_from_complete_by_itself() {
    let todo = Todo::new("dishes").start().complete().start().start();
    assert_eq!(todo.progress(), State::Complete);
    // Only pausing writes it down afresh.
    assert_eq!(todo.pause().progress(), State::Stopped);
}

#[test]
fn cloned_todo_equals_its_source() {
    let todo = Todo::new("dishes").id(9).start();
    let copy = todo.clone();
    assert_eq!(copy.subject(), "dishes");
    assert_eq!(copy.assigned_id(), Some(9));
    assert_eq!(copy.progress(), State::Started);
}

#[test]
fn cloned_state_equals_its_source() {
    assert_eq!(State::Complete.clone(), State::Complete);
    assert_eq!(State::Started.clone(), State::Started);
    assert_eq!(State::Stopped.clone(), State::Stopped);
    assert_ne!(State::Started, State::Stopped);
}
