//! Core of a wakeup-latency benchmark for a single-threaded cooperative
//! scheduler ("the loop") that external worker threads must wake.
//!
//! Two mechanisms are compared: a self-pipe the loop polls for readiness
//! (a non-blocking byte write, no coordination with the loop's execution
//! lock), and a thread-safe callback-submission entry point that acquires
//! the loop's global execution lock on every call.
//!
//! This crate holds the verified core: the pipe-buffer semantics of the
//! signal channel, the submission model of the locked callback, the shared
//! iteration counter, and the state machine each spawned worker runs. The
//! embedding performs the OS calls (pipe creation, byte writes, sleeps,
//! thread spawning, the lock-acquiring submission) and drives the state
//! machine one action at a time.

pub mod channel;
pub mod coordinator;
pub mod callback;
pub mod driver;
