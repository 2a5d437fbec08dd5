//! Connection-acceptance and session-dispatch core of a non-blocking network
//! proxy, verified against an explicit model of the operating system's socket
//! layer.
//!
//! The crate owns the token-addressing scheme, the listener registry, the
//! session collection, and the two-phase (dispatch-then-materialize) event
//! processing protocol of a single-threaded reactor. The OS responses that
//! the core cannot control (bind, register, accept, nodelay outcomes) are
//! modeled by the types in [`net`], so every decision the core makes is
//! stated and proved here; an embedder performs the real system calls and
//! feeds their outcomes in.

use vstd::prelude::*;

pub mod http;
pub mod net;
pub mod server;
pub mod token_counter;
