//! The ordered, cyclic sequence of image locators the slideshow plays.
//!
//! The set is fixed when the component mounts; order is display order,
//! and index arithmetic elsewhere treats the sequence as circular. An
//! empty set is valid input and makes the whole subsystem a no-op.

use vstd::prelude::*;

verus! {

/// The slides, each one an image locator, in display order.
pub struct ImageSet {
    locators: Vec<String>,
}

impl View for ImageSet {
    type V = Seq<Seq<char>>;

    closed spec fn view(&self) -> Seq<Seq<char>> {
        self.locators.deep_view()
    }
}

impl ImageSet {
    /// Wraps the caller's locators; their order is kept as given.
    pub fn new(locators: Vec<String>) -> (set: Self)
        ensures
            set@ == locators.deep_view(),
    {
        ImageSet { locators }
    }

    /// The number of slides.
    pub fn len(&self) -> (n: usize)
        ensures
            n == self@.len(),
    {
        self.locators.len()
    }

    /// Whether there is nothing to play.
    pub fn is_empty(&self) -> (r: bool)
        ensures
            r == (self@.len() == 0),
    {
        self.locators.len() == 0
    }

    /// The locator of slide `slide`.
    pub fn locator(&self, slide: usize) -> (locator: &String)
        requires
            slide < self@.len(),
        ensures
            locator@ == self@[slide as int],
    {
        &self.locators[slide]
    }
}

} // verus!
