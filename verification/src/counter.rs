//! A counter that advances by a configurable step.

use vstd::prelude::*;

verus! {

pub struct Counter {
    pub count: i64,
    pub step: i64,
}

impl Counter {
    /// A counter at `initial`, advancing by `step`.
    pub fn new(initial: i64, step: i64) -> (c: Self)
        ensures
            c.count == initial,
            c.step == step,
    {
        Counter { count: initial, step }
    }

    /// The current count.
    pub fn get_count(&self) -> (r: i64)
        ensures
            r == self.count,
    {
        self.count
    }

    /// The current step.
    pub fn get_step(&self) -> (r: i64)
        ensures
            r == self.step,
    {
        self.step
    }

    /// Advances the count by the step.
    pub fn increment(&mut self)
        requires
            i64::MIN <= old(self).count + old(self).step <= i64::MAX,
        ensures
            final(self).count == old(self).count + old(self).step,
            final(self).step == old(self).step,
    {
        self.count = self.count + self.step;
    }

    /// Puts the count back to zero; the step is kept.
    pub fn reset(&mut self)
        ensures
            final(self).count == 0,
            final(self).step == old(self).step,
    {
        self.count = 0;
    }

    /// Changes the step; the count is kept.
    pub fn set_step(&mut self, new_step: i64)
        ensures
            final(self).count == old(self).count,
            final(self).step == new_step,
    {
        self.step = new_step;
    }
}

} // verus!
