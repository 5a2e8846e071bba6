use vstd::prelude::*;
use crate::cycle::ImageCycle;
use crate::debounce::{Debouncer, poll_spec};

verus! {

/// The decisions of the image-cycling loop: a debounced button and the
/// position in the image table.
pub struct Driver {
    pub button: Debouncer,
    pub cycle: ImageCycle,
}

impl Driver {
    /// Starts on the first of `len` images, with the button released and its
    /// debounce window starting at `now_ms`.
    pub fn new(len: usize, now_ms: u64) -> (d: Driver)
        requires
            len > 0,
        ensures
            d.cycle.wf(),
            d.cycle.index_spec() < d.cycle.len_spec(),
            d.cycle.index_spec() == 0,
            d.cycle.len_spec() == len,
            d.button == Debouncer::new_spec(now_ms),
    {
        Driver { button: Debouncer::new(now_ms), cycle: ImageCycle::new(len) }
    }

    /// Polls the button once; on an activation moves to the next image and
    /// returns the index to draw.
    pub fn poll(&mut self, low: bool, now_ms: u64) -> (r: Option<usize>)
        requires
            old(self).cycle.wf(),
        ensures
            final(self).cycle.wf(),
            final(self).cycle.index_spec() < final(self).cycle.len_spec(),
            final(self).cycle.len_spec() == old(self).cycle.len_spec(),
            r matches Some(i) ==> i < final(self).cycle.len_spec(),
            final(self).button == poll_spec(old(self).button, low, now_ms).0,
            poll_spec(old(self).button, low, now_ms).1 ==> {
                &&& final(self).cycle.index_spec() == (old(self).cycle.index_spec() + 1) as int % (old(self).cycle.len_spec() as int)
                &&& r == Some(final(self).cycle.index_spec() as usize)
            },
            !poll_spec(old(self).button, low, now_ms).1 ==> {
                &&& final(self).cycle.index_spec() == old(self).cycle.index_spec()
                &&& r is None
            },
    {
        if self.button.poll(low, now_ms) {
            Some(self.cycle.advance())
        } else {
            None
        }
    }
}

} // verus!
