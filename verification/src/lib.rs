//! Checks for an end-to-end run against a replay-upload service: what the
//! service answers is held against what the replay files themselves say.
//!
//! The library decides and the program around it acts. `harness` gives
//! the statements that bring the store back to its fixture, `run` gives
//! the steps of each scenario with all that they need, `script`,
//! `listing` and `expect` say what each step asks and expects, `verify`
//! holds an answer against a replay, and `report` says how it went.

pub mod api;
pub mod expect;
pub mod failure;
pub mod harness;
pub mod listing;
pub mod order;
pub mod replay;
pub mod report;
pub mod run;
pub mod script;
pub mod show;
pub mod steam;
pub mod verify;
