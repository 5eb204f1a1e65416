//! The role-scoped timeout source.
//!
//! Timeout creation is a pure factory call: each call yields an
//! independent, cancellable handle scoped to the role it was made for.
//! Which duration policy applies to a role — randomized election timeout,
//! fixed heartbeat interval — is entirely the timer's own concern.

use vstd::prelude::*;

verus! {

/// A node's current position in the consensus protocol.
#[derive(Clone, Copy, PartialEq, Eq, Structural, Debug)]
pub enum Role {
    /// Waiting for a leader's heartbeats.
    Follower,
    /// Campaigning for leadership.
    Candidate,
    /// Replicating the log to followers.
    Leader,
}

/// A cancellable, awaitable timeout event.
#[derive(Clone, Copy, PartialEq, Eq, Structural, Debug)]
pub struct Timeout {
    /// The role the timeout was created for; it governs the duration
    /// policy the timer applies.
    pub role: Role,
}

/// The timeout source.
#[derive(Clone, Copy, PartialEq, Eq, Structural, Debug)]
pub struct Timer {}

impl Timer {
    /// A timeout source.
    pub fn new() -> (t: Timer)
        ensures
            t == (Timer {}),
    {
        Timer {}
    }

    /// Produces a fresh timeout event scoped to `role`.
    pub fn create_timeout(&self, role: Role) -> (t: Timeout)
        ensures
            t.role == role,
    {
        Timeout { role }
    }
}

} // verus!
