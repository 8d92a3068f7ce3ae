//! Focus memory: at most one remembered foreground-application identifier.
//!
//! The identifier of the application that held input focus is written when
//! the window is shown and consumed (read-and-clear) when focus is handed
//! back, so a given identifier is never restored twice.

use vstd::prelude::*;

verus! {

/// Holds at most one remembered foreground identifier. A new `remember`
/// overwrites any previous value without restoring it first (latest wins).
#[verifier::ext_equal]
pub struct FocusMemory {
    pub remembered: Option<String>,
}

impl FocusMemory {
    /// Fresh memory: nothing remembered.
    pub fn new() -> (r: FocusMemory)
        ensures
            r == (FocusMemory { remembered: None }),
    {
        FocusMemory { remembered: None }
    }

    /// Unconditionally overwrites the stored identifier, discarding any
    /// previous value. Latest wins: after two writes only the second
    /// identifier remains.
    pub fn remember(&mut self, id: String)
        ensures
            *final(self) == (FocusMemory { remembered: Some(id) }),
    {
        self.remembered = Some(id);
    }

    /// Returns the stored identifier and clears it in one step; returns
    /// `None` if nothing was stored.
    pub fn take(&mut self) -> (r: Option<String>)
        ensures
            r == old(self).remembered,
            *final(self) == (FocusMemory { remembered: None }),
    {
        self.remembered.take()
    }
}

} // verus!
