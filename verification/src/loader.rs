//! Readiness bookkeeping for the asynchronously decoding slides.
//!
//! Every slide starts decoding when the component mounts; each decode
//! runs independently and is observed by polling, never by waiting. The
//! loader records, per slide, whether its pixels have arrived. A flag
//! flips from false to true exactly once and never back: a decode that
//! fails simply never reports ready, which stalls nothing else.

use vstd::prelude::*;

verus! {

/// One readiness flag per slide, in slide order.
pub struct ImageLoader {
    ready: Vec<bool>,
}

impl View for ImageLoader {
    type V = Seq<bool>;

    closed spec fn view(&self) -> Seq<bool> {
        self.ready@
    }
}

impl ImageLoader {
    /// A loader for `count` slides, none of which has finished decoding
    /// yet.
    pub fn new(count: usize) -> (loader: Self)
        ensures
            loader@.len() == count,
            forall|i: int| 0 <= i < count ==> !loader@[i],
    {
        let mut ready: Vec<bool> = Vec::new();
        let mut i: usize = 0;
        while i < count
            invariant
                i <= count,
                ready@.len() == i,
                forall|j: int| 0 <= j < i ==> !ready@[j],
            decreases count - i,
        {
            ready.push(false);
            i = i + 1;
        }
        ImageLoader { ready }
    }

    /// The number of slides the loader tracks.
    pub fn len(&self) -> (n: usize)
        ensures
            n == self@.len(),
    {
        self.ready.len()
    }

    /// Records that slide `slide`'s decode has finished. Readiness only
    /// ever grows: every slide that was ready stays ready.
    pub fn note_ready(&mut self, slide: usize)
        requires
            slide < old(self)@.len(),
        ensures
            final(self)@ == old(self)@.update(slide as int, true),
            final(self)@.len() == old(self)@.len(),
            final(self)@[slide as int],
            forall|j: int| 0 <= j < old(self)@.len() && old(self)@[j] ==> final(self)@[j],
    {
        self.ready.set(slide, true);
    }

    /// Whether slide `slide`'s decode has finished. Constant-time and
    /// non-blocking: the render loop polls this every tick.
    pub fn is_ready(&self, slide: usize) -> (r: bool)
        requires
            slide < self@.len(),
        ensures
            r == self@[slide as int],
    {
        self.ready[slide]
    }
}

} // verus!
