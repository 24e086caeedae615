//! A key-custody library: an isolated worker holds long-lived secret keys in
//! a vault and serves generate/seal/open requests over a length-prefixed
//! binary protocol, so that raw secret-key bytes never cross back to the host.
//!
//! The verified parts are the wire codec, the key vault, the worker-side
//! dispatch, and the execution-policy description for the worker; process
//! isolation and the channel itself are ordinary I/O left to the surrounding
//! application.

pub mod crypto;
pub mod dispatch;
pub mod policy;
pub mod vault;
pub mod wire;
