//! A personal task tracker: create tasks, list them, fetch one by
//! identifier, and mark one complete.
//!
//! The crate separates the domain from persistence. The [`task`] module
//! holds the task entity and its mathematical model; [`ports`] states the
//! persistence contract that the service depends on; [`service`] enforces
//! the lifecycle rules over any repository meeting that contract;
//! [`memory`] is a verified in-memory repository; [`laws`] proves the
//! guarantees that hold across operations.

pub mod create;
pub mod laws;
pub mod memory;
pub mod ports;
pub mod service;
pub mod task;
