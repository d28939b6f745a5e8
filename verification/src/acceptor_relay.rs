//! The item-acceptor relay: a single capture slot with last-write-wins
//! captures and identifier-matched releases.  The embedding application
//! broadcasts each transition to its observers; the slot's rules live
//! here.

use vstd::prelude::*;

verus! {

/// The item currently captured, named by its string identifier.  The
/// captured resource itself is held by the embedding application beside
/// this record.
#[derive(Clone, Debug)]
pub struct CapturedItem {
    pub uid: String,
}

/// The single-slot capture relay.
pub struct AcceptorRelay {
    pub slot: Option<CapturedItem>,
}

impl AcceptorRelay {
    /// An empty relay: nothing captured.
    pub fn new() -> (r: AcceptorRelay)
        ensures
            r.slot is None,
    {
        AcceptorRelay { slot: None }
    }

    /// Record that the item with this identifier is now captured,
    /// replacing whatever was captured before.
    pub fn captured(&mut self, uid: String)
        ensures
            match final(self).slot {
                Some(c) => c.uid@ == uid@,
                None => false,
            },
    {
        self.slot = Some(CapturedItem { uid });
    }

    /// Clear the captured item, but only if its recorded identifier
    /// matches; the result says whether the slot changed.
    pub fn released(&mut self, uid: String) -> (changed: bool)
        ensures
            changed == match old(self).slot {
                Some(c) => c.uid@ == uid@,
                None => false,
            },
            changed ==> final(self).slot is None,
            !changed ==> final(self).slot == old(self).slot,
    {
        let matches_current = match &self.slot {
            Some(c) => c.uid == uid,
            None => false,
        };
        if matches_current {
            self.slot = None;
        }
        matches_current
    }
}

} // verus!
