//! Shared-ownership accounting for opaque pointer payloads.
//!
//! When a [`crate::marshal::Value::Pointer`] result is handed to the
//! engine, the engine becomes a co-owner of the shared payload: it holds
//! one strong reference and a registered destructor that releases that
//! reference exactly once on reclamation. The unsafe shim mirrors the
//! transitions of this counter one for one on the real shared allocation;
//! the laws about destructor balance are proved against this model.

use vstd::prelude::*;

verus! {

/// The number of strong references to one shared opaque payload that are
/// currently outstanding.
#[derive(Clone, Copy, PartialEq, Eq, Structural)]
pub struct StrongCount {
    /// Strong references currently alive; the payload is reclaimed when
    /// this reaches zero.
    pub refs: u64,
}

/// The count after one more strong reference is handed out.
pub open spec fn retained(c: StrongCount) -> StrongCount {
    StrongCount { refs: (c.refs + 1) as u64 }
}

/// The count after one holder releases its reference.
pub open spec fn released(c: StrongCount) -> StrongCount {
    StrongCount { refs: (c.refs - 1) as u64 }
}

/// True when releasing one reference from this count reclaims the payload.
pub open spec fn reclaims(c: StrongCount) -> bool {
    c.refs == 1
}

impl StrongCount {
    /// A freshly created shared payload: its creator holds the single
    /// reference.
    pub fn new() -> (c: StrongCount)
        ensures
            c.refs == 1,
    {
        StrongCount { refs: 1 }
    }

    /// Hand out one more strong reference, as marshalling an opaque
    /// pointer does when the engine becomes a co-owner.
    pub fn retain(&mut self)
        requires
            old(self).refs < u64::MAX,
        ensures
            *final(self) == retained(*old(self)),
    {
        self.refs = self.refs + 1;
    }

    /// One holder releases its reference: the single decrement the
    /// registered destructor performs when the engine reclaims its
    /// reference. Returns true exactly when this was the last reference
    /// and the payload is freed. A count of zero is excluded by contract:
    /// the destructor runs at most once per reference handed out.
    pub fn release(&mut self) -> (last: bool)
        requires
            old(self).refs > 0,
        ensures
            *final(self) == released(*old(self)),
            last == reclaims(*old(self)),
    {
        self.refs = self.refs - 1;
        self.refs == 0
    }
}

/// Destructor balance: handing the engine one strong reference and having
/// its destructor release it exactly once restores the count unchanged,
/// and that release never reclaims the payload while another holder
/// remains — the payload is freed only by the release of the last
/// reference.
pub proof fn lemma_destructor_balance(c: StrongCount)
    requires
        0 < c.refs < u64::MAX,
    ensures
        released(retained(c)) == c,
        !reclaims(retained(c)),
{
}

} // verus!
