//! The housekeeper: a delay queue of maintenance actions, the decisions of
//! the scheduler that owns it, and the steps of a purge task.
pub mod action;
pub mod event;
pub mod purge;
pub mod uniqueness;
pub mod queue;
pub mod scheduler;
