//! A name service: a registry that binds names to owner identities. The
//! first writer of a name wins, for good: a binding is never changed and
//! never removed.
//!
//! The service comes in two variants. In the gated one a single privileged
//! identity, the minter, registers names for their owners. In the ungated one
//! anybody registers a name for itself.
//!
//! - `state`: the persistent mapping store, one record per name.
//! - `gate`: the authorization gate of the gated variant.
//! - `contract`: the entry points of the gated variant.
//! - `ungated`: the entry points of the ungated variant.
//! - `msg`, `response`, `error`: what goes into a call and what comes out.
//! - `model`: the state machine as mathematics.
//! - `laws`: what is proved of every sequence of calls.

pub mod contract;
pub mod error;
pub mod gate;
pub mod laws;
pub mod model;
pub mod msg;
pub mod response;
pub mod state;
pub mod ungated;
