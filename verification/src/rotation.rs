//! A pair of latency histograms in "write" and "read" roles.
//!
//! Samples are always recorded into the write side; quantile queries always
//! read the read side, which holds a recently completed, immutable window of
//! samples.  A periodic, externally driven `rotate` swaps the two roles and
//! clears the new write side, so a stale latency distribution can influence
//! quantile queries for at most two rotation periods.

use vstd::prelude::*;

use crate::histogram::Histogram;
use crate::histogram::Quantile;

verus! {

/// Exactly two histograms: one collecting the current window (`write`) and
/// one serving quantile queries over the previous window (`read`).
pub struct RotatingHistogram {
    write: Histogram,
    read: Histogram,
}

impl RotatingHistogram {
    /// The histogram collecting the current window of samples.
    pub closed spec fn spec_write(self) -> Histogram {
        self.write
    }

    /// The histogram serving quantile queries.
    pub closed spec fn spec_read(self) -> Histogram {
        self.read
    }

    /// Both sides are well-formed histograms over the same bucket bounds.
    pub open spec fn wf(self) -> bool {
        &&& self.spec_write().wf()
        &&& self.spec_read().wf()
        &&& self.spec_write().spec_bounds() == self.spec_read().spec_bounds()
    }

    /// How one `add` of a sample of duration `duration_ms` relates the
    /// state before it to the state after it: the read window is untouched
    /// and the write window gains exactly that sample.
    pub open spec fn added(before: Self, after: Self, duration_ms: u64) -> bool {
        &&& after.spec_read() == before.spec_read()
        &&& after.spec_write().spec_bounds() == before.spec_write().spec_bounds()
        &&& after.spec_write().spec_counts() == before.spec_write().spec_counts().update(
            crate::histogram::target_index(before.spec_write().spec_bounds(), duration_ms),
            (before.spec_write().spec_counts()[crate::histogram::target_index(
                before.spec_write().spec_bounds(),
                duration_ms,
            )] + 1) as u64,
        )
        &&& after.spec_write().spec_total() == before.spec_write().spec_total() + 1
    }

    /// How one `rotate` relates the state before it to the state after it:
    /// the old write window becomes the read window, unchanged, and the new
    /// write window is empty, over the same bounds as before.
    pub open spec fn rotated(before: Self, after: Self) -> bool {
        &&& after.spec_read() == before.spec_write()
        &&& after.spec_write().spec_bounds() == before.spec_read().spec_bounds()
        &&& after.spec_write().spec_counts().len() == before.spec_read().spec_counts().len()
        &&& (forall|i: int|
            0 <= i < after.spec_write().spec_counts().len() ==> after.spec_write().spec_counts()[i]
                == 0)
        &&& after.spec_write().spec_total() == 0
    }

    /// Construct a rotating histogram whose two sides are empty histograms
    /// over the given strictly increasing bucket bounds.
    pub fn new(bounds: Vec<u64>) -> (r: RotatingHistogram)
        requires
            bounds@.len() > 0,
            forall|i: int, j: int| 0 <= i < j < bounds@.len() ==> bounds@[i] < bounds@[j],
        ensures
            r.wf(),
            r.spec_write().spec_bounds() == bounds@,
            r.spec_write().spec_total() == 0,
            r.spec_read().spec_total() == 0,
    {
        let bounds2 = copy_bounds(&bounds);
        let write = Histogram::new(bounds);
        let read = Histogram::new(bounds2);
        RotatingHistogram { write, read }
    }

    /// Record one sample of the given duration into the current write
    /// window; the read window is untouched.
    pub fn add(&mut self, duration_ms: u64)
        requires
            old(self).wf(),
            old(self).spec_write().spec_total() < u64::MAX,
        ensures
            final(self).wf(),
            Self::added(*old(self), *final(self), duration_ms),
    {
        self.write.add(duration_ms);
    }

    /// The histogram serving quantile queries: the previous, completed
    /// window.
    pub fn read(&self) -> (r: &Histogram)
        ensures
            *r == self.spec_read(),
    {
        &self.read
    }

    /// The number of samples in the current write window.
    pub fn write_total(&self) -> (r: u64)
        ensures
            r == self.spec_write().spec_total(),
    {
        self.write.total()
    }

    /// Quantile lookup on the read window.
    pub fn read_quantile(&self, q: Quantile) -> (r: Option<u64>)
        requires
            self.wf(),
            q.wf(),
        ensures
            r == self.spec_read().spec_quantile(q),
            r is None <==> self.spec_read().spec_total() == 0,
    {
        self.read.quantile(q)
    }

    /// Swap the two roles: the write window just completed becomes the read
    /// window, and the new write window starts out empty, discarding the
    /// stale data of the old read window.
    pub fn rotate(&mut self)
        requires
            old(self).wf(),
        ensures
            final(self).wf(),
            Self::rotated(*old(self), *final(self)),
    {
        core::mem::swap(&mut self.write, &mut self.read);
        self.write.reset();
    }
}

/// Rotation idempotence: rotating while the write window is empty leaves a
/// read window with zero samples, and rotating again immediately does so
/// again — no count leaks across rotations.  `first` and `second` are the
/// states after one and two rotations of `start`, each related to its
/// predecessor exactly as the contract of `rotate` states.
pub proof fn lemma_rotation_idempotent(
    start: RotatingHistogram,
    first: RotatingHistogram,
    second: RotatingHistogram,
)
    requires
        start.wf(),
        start.spec_write().spec_total() == 0,
        RotatingHistogram::rotated(start, first),
        RotatingHistogram::rotated(first, second),
    ensures
        first.spec_read().spec_total() == 0,
        second.spec_read().spec_total() == 0,
{
}

/// A copy of a vector of bucket bounds, element for element.
fn copy_bounds(v: &Vec<u64>) -> (r: Vec<u64>)
    ensures
        r@ == v@,
{
    let n = v.len();
    let mut r: Vec<u64> = Vec::new();
    let mut i: usize = 0;
    while i < n
        invariant
            i <= n,
            n == v@.len(),
            r@ =~= v@.take(i as int),
        decreases n - i,
    {
        r.push(v[i]);
        i = i + 1;
    }
    proof {
        assert(v@.take(n as int) =~= v@);
    }
    r
}

} // verus!
