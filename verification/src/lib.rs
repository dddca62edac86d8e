//! Fan-out dispatch of one execution request to a fixed set of executor nodes.
//!
//! One logical request is stamped with a single correlation identifier, copied
//! to every node of the registry, and the per-node outcomes are gathered into
//! one all-or-nothing result. The network itself is left to the caller: this
//! crate decides what is to be sent and what the answers amount to.

pub mod aggregate;
pub mod correlation;
pub mod dispatch;
pub mod outcome;
pub mod pool;
pub mod registry;
pub mod request;
