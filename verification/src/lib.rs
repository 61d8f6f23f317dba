//! Prefix-cache conditioning: one completion to every cache-owning worker.
//!
//! A benchmark wants to start with the same prefix already resident in the KV cache of
//! every worker. A *prime* sends one completion to one worker for that end and reports
//! one row: the status that came back, where one did, and what went wrong, where
//! something did.
//!
//! This crate decides; its caller does the I/O. [`prime::prime_once`] names the first
//! action of a prime, and [`prime::prime_worker`] takes what came of an action to the
//! next one, until the action is to report the row. [`over_http`] and [`backend`] are
//! the two wires. [`run`] says where whole sequences of answers lead, and [`laws`]
//! proves what holds of all of them; [`guarantees`] does so of each step.

pub mod backend;
pub mod guarantees;
pub mod laws;
pub mod outcome;
pub mod over_http;
pub mod prime;
pub mod protocol;
pub mod request;
pub mod request_id;
pub mod run;
pub mod text;
pub mod timeout;
