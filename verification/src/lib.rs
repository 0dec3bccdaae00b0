//! A minimal cooperative task-scheduling core: pollable futures, a leaf
//! future that drives one non-blocking request/response exchange, and a
//! coroutine state machine that sequences leaf futures to completion.
//!
//! The core never blocks and never sleeps: every piece of socket work is
//! expressed as an `IoAction` handed to the caller, and the outcome of the
//! caller's work comes back as an `IoEvent`, so that every decision the
//! futures take is verified.
pub mod coroutine;
pub mod future;
pub mod http;
