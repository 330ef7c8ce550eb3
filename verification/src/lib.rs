//! Turns booking reservations into dated task trees for a task tracker.
//!
//! The crate is the decision core of a polling service: it models calendar
//! dates, renders reservations, expands each reservation into one parent task
//! and a fixed catalog of sub-tasks, and drives the submission of those tasks
//! as an explicit state machine. Network access, the clock and the scheduler
//! live outside; they hand plain values in and carry requests out.

pub mod builder;
pub mod calendar;
pub mod catalog;
pub mod http;
pub mod parsio;
pub mod poll;
pub mod reservation;
pub mod sync;
pub mod task;
pub mod text;
pub mod todoist;
