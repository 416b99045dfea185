//! A minimal single-task cooperative executor, modelled and verified.
//!
//! The library models a poll-based suspendable computation over a shared
//! status/result cell, the wake-notification protocol that reconnects a
//! blocked executor with a finished background operation, and the
//! run-to-completion loop that drives one computation on the calling thread.
//! The actual OS-level machinery (threads, condition variables, atomics)
//! lives outside the library and mirrors the verified transition functions
//! defined here.

pub mod cell;
pub mod computation;
pub mod executor;
pub mod sim;
pub mod status;
pub mod waker;
