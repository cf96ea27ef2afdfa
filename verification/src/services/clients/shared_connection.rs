//! Lazily created process-wide client connections (Kafka, NATS, Redis,
//! SMTP). A connection is created at most once: a caller first looks for an
//! existing one; otherwise, holding the initialisation lock, it connects
//! only if no earlier attempt succeeded, and stores what it got.

use vstd::prelude::*;

verus! {

/// State of a shared connection: whether one is stored, and whether an
/// initialisation has completed.
#[derive(Clone, Copy, PartialEq, Eq, Structural, Debug)]
pub struct ConnectionSlot {
    pub stored: bool,
    pub initialized: bool,
}

/// The slot's invariant: it is initialised exactly when a connection is
/// stored.
pub open spec fn slot_ok(s: ConnectionSlot) -> bool {
    s.initialized == s.stored
}

/// What a caller does after looking at the slot.
#[derive(Clone, Copy, PartialEq, Eq, Structural, Debug)]
pub enum Lookup {
    /// Return the stored connection.
    UseStored,
    /// Connect, then record the outcome with [`ConnectionSlot::record`].
    Connect,
}

/// The slot after a connection attempt: a successful attempt stores the
/// connection (unless one already is) and completes the initialisation; a
/// failed one changes nothing.
pub open spec fn after_attempt(s: ConnectionSlot, connected: bool) -> ConnectionSlot {
    if connected && !s.stored {
        ConnectionSlot { stored: true, initialized: true }
    } else {
        s
    }
}

/// What a lookup decides.
pub open spec fn lookup_of(s: ConnectionSlot) -> Lookup {
    if s.stored {
        Lookup::UseStored
    } else {
        Lookup::Connect
    }
}

impl ConnectionSlot {
    /// No connection yet.
    pub fn new() -> (s: ConnectionSlot)
        ensures
            !s.stored,
            !s.initialized,
            slot_ok(s),
    {
        ConnectionSlot { stored: false, initialized: false }
    }

    /// First look at the slot: a stored connection is used; otherwise the
    /// caller connects (an initialised slot always stores one).
    pub fn lookup(&self) -> (l: Lookup)
        requires
            slot_ok(*self),
        ensures
            l == lookup_of(*self),
    {
        if self.stored {
            Lookup::UseStored
        } else if !self.initialized {
            Lookup::Connect
        } else {
            Lookup::UseStored
        }
    }

    /// Records the outcome of a connection attempt. Returns whether a
    /// connection is now available.
    pub fn record(&mut self, connected: bool) -> (available: bool)
        requires
            slot_ok(*old(self)),
        ensures
            *final(self) == after_attempt(*old(self), connected),
            available == final(self).stored,
    {
        if connected && !self.stored {
            self.stored = true;
            self.initialized = true;
        }
        self.stored
    }
}

/// Attempts keep the slot consistent; a stored connection is never dropped
/// or replaced, and from then on lookups use it; a connection becomes
/// available exactly when some attempt succeeded.
pub proof fn lemma_connection_kept(s: ConnectionSlot, connected: bool)
    requires
        slot_ok(s),
    ensures
        slot_ok(after_attempt(s, connected)),
        after_attempt(s, connected).stored == (s.stored || connected),
        s.stored ==> after_attempt(s, connected) == s,
        s.stored ==> lookup_of(after_attempt(s, connected)) == Lookup::UseStored,
{
}

} // verus!
