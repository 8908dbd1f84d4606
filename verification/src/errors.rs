use vstd::prelude::*;

verus! {

/// Error kinds surfaced by election operations.
///
/// `LeadershipLost` is never silently swallowed: a failed fencing check on
/// a proclaim is always reported as `LeadershipLost`, and the caller must
/// stop acting as leader at once.
#[derive(Clone, Copy, Debug, PartialEq, Eq, Structural)]
pub enum Error {
    /// Connection or IO failure in the transport; surfaced, never retried
    /// by the core.
    Transport,
    /// The candidacy lease was unknown when the campaign was registered.
    LeaseNotFound,
    /// The candidacy lease became invalid while the campaign was pending.
    LeaseExpired,
    /// A fencing check failed: the leadership key no longer exists with
    /// the expected creation revision.
    LeadershipLost,
    /// No live candidate key exists for the election.
    NoLeader,
    /// Malformed election name or empty key.
    InvalidArgument,
    /// A key or election name does not hold valid UTF-8.
    InvalidUtf8,
}

} // verus!
