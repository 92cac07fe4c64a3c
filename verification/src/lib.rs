//! An in-memory task tracker: todos and books that move from stopped through
//! started to complete, and keyed lists that own them.

pub mod entertainment;
pub mod list;
pub mod state;
pub mod task;
mod text;
pub mod todo;

pub use list::TaskList;
pub use state::State;
pub use task::Task;
pub use todo::Todo;
