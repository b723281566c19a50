//! Verified core of a foreign-call bridge to a block-stream indexing service.
//!
//! The crate holds the rules of the bridge as functions with contracts: how
//! foreign inputs are validated and replies are shaped, how a block range and
//! a package locator are resolved, and how a block stream is consumed with a
//! cursor that survives restarts and follows rollbacks.

pub mod calls;
pub mod ffi;
pub mod locator;
pub mod package;
pub mod range;
pub mod registry;
pub mod stream;
pub mod text;
