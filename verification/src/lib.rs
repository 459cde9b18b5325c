//! Probe many SSH servers with a single public key and report which hosts
//! would accept it.
//!
//! The crate models the core of such a scanner: a handle arena that accounts
//! for every native resource, a typestate session whose operations are legal
//! only in the right connection phase, credential construction from encoded
//! key material, classification of per-host outcomes, and the dispatch plan
//! that turns an input stream into a bounded set of scan jobs. The network
//! transport itself is an external collaborator: its results enter the
//! library as plain values and every decision taken on them is verified.

pub mod base64;
pub mod dispatch;
pub mod handles;
pub mod key;
pub mod scan;
pub mod session;
pub mod text;
