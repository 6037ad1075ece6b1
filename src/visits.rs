use vstd::prelude::*;

verus! {

/// Counts the visits to the greeting counter route.
#[derive(Clone, Copy, Debug, PartialEq, Eq, Structural)]
pub struct VisitCounter {
    pub count: u64,
}

impl VisitCounter {
    /// No visits yet.
    pub fn new() -> (r: VisitCounter)
        ensures
            r.count == 0,
    {
        VisitCounter { count: 0 }
    }

    /// Counts one more visit and returns the new total; the total stays at
    /// the largest `u64` once it gets there.
    pub fn visit(&mut self) -> (r: u64)
        ensures
            final(self).count == (if old(self).count < u64::MAX {
                old(self).count + 1
            } else {
                old(self).count as int
            }),
            r == final(self).count,
    {
        if self.count < u64::MAX {
            self.count = self.count + 1;
        }
        self.count
    }
}

} // verus!
