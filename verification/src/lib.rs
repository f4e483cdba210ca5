//! A small task-board library: the navigation and rendering state machine of a
//! terminal kanban dashboard (Todo / Doing / Done columns plus placeholder
//! screens), kept separate from the terminal, file and timer plumbing that
//! drives it.

pub mod board;
pub mod cursor;
pub mod events;
pub mod hotkeys;
pub mod menu;
pub mod store;
pub mod task;
pub mod view;

pub use task::Error;
pub use task::Todo;
pub use task::TodoStatus;
