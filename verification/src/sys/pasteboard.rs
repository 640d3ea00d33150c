//! The general pasteboard, as the app saves it around its temporary use of it: the user's
//! pasteboard is saved once, before the first time a conversion borrows it, and that very
//! copy is what is put back when the conversion ends.

use vstd::prelude::*;

verus! {

/// Every item on the pasteboard with every representation it offers: for each item,
/// (type, bytes) pairs.
pub struct Snapshot(pub Vec<Vec<(String, Vec<u8>)>>);

/// What is kept after saving each of `snapshots` in turn, starting from `kept`: the first
/// one saved stays, later ones are dropped.
pub open spec fn kept_after(kept: Option<Snapshot>, snapshots: Seq<Snapshot>) -> Option<Snapshot>
    decreases snapshots.len(),
{
    if snapshots.len() == 0 {
        kept
    } else {
        kept_after(
            if kept is None {
                Some(snapshots[0])
            } else {
                kept
            },
            snapshots.drop_first(),
        )
    }
}

/// The user's pasteboard while a conversion borrows it.
pub struct PasteboardKeeper {
    saved: Option<Snapshot>,
}

impl PasteboardKeeper {
    /// The saved pasteboard, if it has been saved.
    pub closed spec fn kept(&self) -> Option<Snapshot> {
        self.saved
    }

    /// Nothing saved yet: the pasteboard has not been borrowed.
    pub fn new() -> (r: PasteboardKeeper)
        ensures
            r.kept() is None,
    {
        PasteboardKeeper { saved: None }
    }

    /// Whether the pasteboard must be saved before it is borrowed: only before the first
    /// time.
    pub fn needs_saving(&self) -> (r: bool)
        ensures
            r == (self.kept() is None),
    {
        self.saved.is_none()
    }

    /// Keeps `snapshot` as the pasteboard to put back, unless one is kept already (a later
    /// copy would hold the conversion's own text).
    pub fn keep(&mut self, snapshot: Snapshot)
        ensures
            final(self).kept() == (if old(self).kept() is None {
                Some(snapshot)
            } else {
                old(self).kept()
            }),
    {
        if self.saved.is_none() {
            self.saved = Some(snapshot);
        }
    }

    /// What to put back when the conversion ends: the saved pasteboard, if it was borrowed.
    pub fn to_restore(&self) -> (r: Option<&Snapshot>)
        ensures
            r == match self.kept() {
                Some(s) => Some(&s),
                None => None::<&Snapshot>,
            },
    {
        match &self.saved {
            Some(s) => Some(s),
            None => None,
        }
    }
}

/// A conversion that borrowed the pasteboard ends by putting back the user's own: after any
/// number of savings, the pasteboard to put back is the first one saved, taken before the
/// first borrowing, and there is one exactly when the pasteboard was borrowed.
pub proof fn law_pasteboard_put_back(snapshots: Seq<Snapshot>)
    ensures
        snapshots.len() > 0 ==> kept_after(None, snapshots) == Some(snapshots[0]),
        snapshots.len() == 0 ==> kept_after(None, snapshots) is None,
{
    if snapshots.len() > 0 {
        lemma_kept_stays(snapshots[0], snapshots.drop_first());
    }
}

proof fn lemma_kept_stays(first: Snapshot, rest: Seq<Snapshot>)
    ensures
        kept_after(Some(first), rest) == Some(first),
    decreases rest.len(),
{
    if rest.len() > 0 {
        lemma_kept_stays(first, rest.drop_first());
    }
}

} // verus!
