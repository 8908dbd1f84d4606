//! Client-side leader election over a shared, linearizable,
//! revision-versioned key-value store with lease-bound key ownership.
//!
//! Candidates compete for an election (a key prefix in the store) by
//! writing uniquely ordered keys; the candidate holding the key with the
//! smallest creation revision is the leader.  A [`election::LeaderKey`]
//! acts as a fencing token: any update or deletion made through it is
//! conditioned on the key still existing with the same creation revision.
//!
//! The store itself, transport, and marshaling are external collaborators;
//! this crate holds the coordination logic: the campaign/proclaim/leader/
//! resign protocol ([`store`], [`session`]), the resilient leadership
//! observer ([`observe`]), and the plain data types exchanged with callers
//! ([`election`], [`maintenance`]).

pub mod bytes;
pub mod election;
pub mod errors;
pub mod header;
pub mod laws;
pub mod maintenance;
pub mod model;
pub mod observe;
pub mod session;
pub mod store;
