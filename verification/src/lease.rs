//! The exclusive bus lease.
//!
//! Every service call holds the one lease of its transport for its whole
//! duration and releases it on every exit path.  The state below grants
//! it: it hands out at most one lease at a time, and refuses one while the
//! transport is not open.

use vstd::prelude::*;

verus! {

/// Why a lease was refused.
#[derive(Debug, Clone, Copy, PartialEq, Eq, Structural)]
pub enum LeaseError {
    /// The transport is not open; safe to retry after connecting.
    NotConnected,
    /// The one lease of this transport is already held.
    Busy,
}

/// The lease state of one physical transport.
#[derive(Debug, Clone, Copy)]
pub struct BusLease {
    /// Whether the transport is open.
    pub open: bool,
    /// Whether the lease is currently held.
    pub held: bool,
}

impl BusLease {
    /// A lease can only be held on an open transport.
    pub open spec fn wf(self) -> bool {
        self.held ==> self.open
    }

    /// How many leases are outstanding.
    pub open spec fn leases_held(self) -> nat {
        if self.held {
            1
        } else {
            0
        }
    }

    /// The lease state of a transport that is not yet open.
    pub fn new() -> (r: Self)
        ensures
            !r.open,
            !r.held,
            r.wf(),
    {
        Self { open: false, held: false }
    }

    /// Marks the transport open.
    pub fn connect(&mut self)
        requires
            old(self).wf(),
        ensures
            final(self).open,
            final(self).held == old(self).held,
            final(self).wf(),
    {
        self.open = true;
    }

    /// Marks the transport closed.  The lease must not be outstanding.
    pub fn disconnect(&mut self)
        requires
            old(self).wf(),
            !old(self).held,
        ensures
            !final(self).open,
            !final(self).held,
            final(self).wf(),
    {
        self.open = false;
    }

    /// Takes the lease.  Fails while the transport is closed or the lease
    /// is already out; on failure nothing changes.
    pub fn acquire(&mut self) -> (r: Result<(), LeaseError>)
        requires
            old(self).wf(),
        ensures
            final(self).wf(),
            !old(self).open ==> r == Err::<(), LeaseError>(LeaseError::NotConnected) && *final(self)
                == *old(self),
            old(self).open && old(self).held ==> r == Err::<(), LeaseError>(LeaseError::Busy)
                && *final(self) == *old(self),
            old(self).open && !old(self).held ==> r == Ok::<(), LeaseError>(()) && final(self).open
                && final(self).held,
    {
        if !self.open {
            Err(LeaseError::NotConnected)
        } else if self.held {
            Err(LeaseError::Busy)
        } else {
            self.held = true;
            Ok(())
        }
    }

    /// Gives the lease back.  Called on every exit path of a service call,
    /// so releasing an already-free lease is harmless.
    pub fn release(&mut self)
        requires
            old(self).wf(),
        ensures
            !final(self).held,
            final(self).open == old(self).open,
            final(self).wf(),
    {
        self.held = false;
    }
}

/// At every instant a transport has zero or one outstanding leases, never
/// more: the count is bounded by one in every state.
pub proof fn lemma_lease_exclusive(g: BusLease)
    ensures
        g.leases_held() <= 1,
{
}

} // verus!
