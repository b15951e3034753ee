//! Bookkeeping for the two GPU texture slots.
//!
//! The renderer owns exactly two textures: slot zero shows the current
//! slide, slot one the slide being blended in. A slot remembers which
//! slide's pixels it holds, and a fresh upload is requested only when the
//! slide a slot must represent differs from the one it already holds and
//! that slide's decode has finished. The upload itself is the host's
//! work; this module decides whether one is due.

use vstd::prelude::*;

verus! {

/// The bookkeeping of the two texture slots: for each, the index of the
/// slide whose pixels it holds, or nothing before its first upload.
pub struct TextureManager {
    pub slot0_bound: Option<usize>,
    pub slot1_bound: Option<usize>,
}

/// The slide a slot holds, by slot number.
pub open spec fn spec_bound(tm: TextureManager, slot: int) -> Option<usize> {
    if slot == 0 {
        tm.slot0_bound
    } else {
        tm.slot1_bound
    }
}

/// The decision `ensure_uploaded` takes: the new bookkeeping and whether
/// an upload is due. An upload is due exactly when the slide is decoded
/// and the slot does not already hold it; only then does the slot's
/// record change.
pub open spec fn spec_ensure_uploaded(
    tm: TextureManager,
    slot: int,
    slide: usize,
    ready: bool,
) -> (TextureManager, bool) {
    let due = ready && spec_bound(tm, slot) != Some(slide);
    let bound = if due {
        Some(slide)
    } else {
        spec_bound(tm, slot)
    };
    if slot == 0 {
        (TextureManager { slot0_bound: bound, ..tm }, due)
    } else {
        (TextureManager { slot1_bound: bound, ..tm }, due)
    }
}

/// Law: `ensure_uploaded` is idempotent. Two consecutive calls for the
/// same slot and slide issue at most one upload: if the first call
/// uploaded, the slot now holds that slide and the second call is a
/// no-op, whatever the readiness flag has become in between.
pub proof fn lemma_ensure_uploaded_idempotent(
    tm: TextureManager,
    slot: int,
    slide: usize,
    ready1: bool,
    ready2: bool,
)
    ensures
        !(spec_ensure_uploaded(tm, slot, slide, ready1).1 && spec_ensure_uploaded(
            spec_ensure_uploaded(tm, slot, slide, ready1).0,
            slot,
            slide,
            ready2,
        ).1),
{
}

impl TextureManager {
    /// Two slots, neither holding any slide yet: no pixels have been
    /// uploaded when the component mounts.
    pub fn new() -> (tm: Self)
        ensures
            tm.slot0_bound is None,
            tm.slot1_bound is None,
    {
        TextureManager { slot0_bound: None, slot1_bound: None }
    }

    /// Decides whether slot `slot` needs an upload to come to show slide
    /// `slide`, given whether that slide's decode has finished. Returns
    /// true exactly when the host must upload the slide's pixels now; the
    /// slot's record is updated in the same step, so the upload is never
    /// requested twice. When the slide is not ready the slot keeps its
    /// previous contents — the intentional soft-fail that avoids a blank
    /// frame.
    pub fn ensure_uploaded(&mut self, slot: usize, slide: usize, ready: bool) -> (due: bool)
        requires
            slot < 2,
        ensures
            (*final(self), due) == spec_ensure_uploaded(*old(self), slot as int, slide, ready),
            due == (ready && spec_bound(*old(self), slot as int) != Some(slide)),
            spec_bound(*final(self), slot as int) == (if due {
                Some(slide)
            } else {
                spec_bound(*old(self), slot as int)
            }),
            spec_bound(*final(self), 1 - slot as int) == spec_bound(*old(self), 1 - slot as int),
    {
        if slot == 0 {
            let already = match self.slot0_bound {
                Some(b) => b == slide,
                None => false,
            };
            if ready && !already {
                self.slot0_bound = Some(slide);
                true
            } else {
                false
            }
        } else {
            let already = match self.slot1_bound {
                Some(b) => b == slide,
                None => false,
            };
            if ready && !already {
                self.slot1_bound = Some(slide);
                true
            } else {
                false
            }
        }
    }
}

} // verus!
