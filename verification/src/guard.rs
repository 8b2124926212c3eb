use vstd::prelude::*;

use crate::errors::BuyError;

verus! {

/// The exclusive-access guard for the ledger file handle. Every append first
/// claims the guard and releases it when the write is done; an attempt to
/// claim it while a write is in progress fails fast with `GuardBusy` and is
/// never queued or retried, so two appends can never interleave.
pub struct AppendGuard {
    held: bool,
}

impl AppendGuard {
    /// Whether a writer currently holds the guard.
    pub closed spec fn is_held(&self) -> bool {
        self.held
    }

    /// A fresh guard that nobody holds.
    pub fn new() -> (g: AppendGuard)
        ensures
            !g.is_held(),
    {
        AppendGuard { held: false }
    }

    /// Claims the guard for one append. Exactly when nobody holds the guard
    /// the claim succeeds and the guard becomes held; while it is held any
    /// further claim fails with `GuardBusy` and changes nothing.
    pub fn try_acquire(&mut self) -> (r: Result<(), BuyError>)
        ensures
            !old(self).is_held() ==> (r is Ok && final(self).is_held()),
            old(self).is_held() ==> ((r matches Err(BuyError::GuardBusy)) && *final(self) == *old(
                self,
            )),
    {
        if self.held {
            Err(BuyError::GuardBusy)
        } else {
            self.held = true;
            Ok(())
        }
    }

    /// Releases the guard after the append.
    pub fn release(&mut self)
        ensures
            !final(self).is_held(),
    {
        self.held = false;
    }
}

} // verus!
