//! A fixed-bucket latency histogram with approximate quantile lookup.
//!
//! Each bucket is identified by an upper-bound latency (in milliseconds) and
//! holds a count of the samples that fell at or below that bound but above
//! every smaller bound.  The bucket bounds are strictly increasing and fixed
//! at construction; a sample larger than every bound is counted in the last
//! bucket.  Quantile lookup returns the upper bound of the smallest bucket
//! whose cumulative count reaches the requested fraction of all samples, or
//! "unknown" (`None`) when no sample has been recorded.

use vstd::prelude::*;

verus! {

/// A quantile expressed exactly as the fraction `num / den`, with
/// `0 < num <= den`, so that it lies in the interval (0, 1].
#[derive(Clone, Copy, Debug, PartialEq, Eq, Structural)]
pub struct Quantile {
    pub num: u64,
    pub den: u64,
}

impl Quantile {
    /// The fraction is meaningful: strictly positive and at most one.
    pub open spec fn wf(self) -> bool {
        0 < self.num <= self.den
    }

    /// Construct the quantile `num / den`.
    pub fn new(num: u64, den: u64) -> (r: Quantile)
        requires
            0 < num <= den,
        ensures
            r.wf(),
            r.num == num,
            r.den == den,
    {
        Quantile { num, den }
    }
}

/// The sum of a sequence of counts, as an unbounded integer.
pub open spec fn count_sum(s: Seq<u64>) -> int
    decreases s.len(),
{
    if s.len() == 0 {
        0
    } else {
        count_sum(s.drop_last()) + s.last()
    }
}

/// The sum of the first `i` counts.
pub open spec fn prefix_sum(s: Seq<u64>, i: int) -> int {
    count_sum(s.take(i))
}

/// The bucket that a sample of duration `d` falls into: the first bucket
/// whose upper bound is at least `d`, or the last bucket if `d` exceeds
/// every bound.
pub open spec fn target_index(bounds: Seq<u64>, d: u64) -> int
    decreases bounds.len(),
{
    if bounds.len() <= 1 {
        0
    } else if bounds[0] >= d {
        0
    } else {
        1 + target_index(bounds.drop_first(), d)
    }
}

/// The bucket a quantile query resolves to, scanning upward from bucket `i`:
/// the first bucket whose cumulative count, scaled by `den`, reaches `need`
/// (which stands for the numerator times the total count), or the last
/// bucket if none does.
pub open spec fn quantile_index_from(counts: Seq<u64>, den: int, need: int, i: int) -> int
    decreases counts.len() - i,
{
    if i >= counts.len() - 1 {
        counts.len() - 1
    } else if prefix_sum(counts, i + 1) * den >= need {
        i
    } else {
        quantile_index_from(counts, den, need, i + 1)
    }
}

/// The bucket that a quantile query for `num / den` resolves to.
pub open spec fn quantile_index(counts: Seq<u64>, num: int, den: int) -> int {
    quantile_index_from(counts, den, num * count_sum(counts), 0)
}

/// A latency histogram over a fixed set of strictly increasing bucket
/// bounds, with a cached total sample count.
pub struct Histogram {
    bounds: Vec<u64>,
    counts: Vec<u64>,
    total: u64,
}

impl Histogram {
    /// The bucket upper bounds, in milliseconds.
    pub closed spec fn spec_bounds(self) -> Seq<u64> {
        self.bounds@
    }

    /// The per-bucket sample counts.
    pub closed spec fn spec_counts(self) -> Seq<u64> {
        self.counts@
    }

    /// The total number of recorded samples.
    pub closed spec fn spec_total(self) -> int {
        self.total as int
    }

    /// Well-formedness: one count per bucket, at least one bucket, strictly
    /// increasing bounds, and the cached total equal to the sum of counts.
    pub open spec fn wf(self) -> bool {
        &&& self.spec_bounds().len() == self.spec_counts().len()
        &&& self.spec_bounds().len() > 0
        &&& (forall|i: int, j: int|
            0 <= i < j < self.spec_bounds().len() ==> self.spec_bounds()[i] < self.spec_bounds()[j])
        &&& self.spec_total() == count_sum(self.spec_counts())
    }

    /// What `quantile` returns: `None` when no sample has been recorded,
    /// otherwise the upper bound of the bucket the query resolves to.
    pub open spec fn spec_quantile(self, q: Quantile) -> Option<u64> {
        if self.spec_total() == 0 {
            None
        } else {
            Some(self.spec_bounds()[quantile_index(self.spec_counts(), q.num as int, q.den as int)])
        }
    }

    /// Construct a histogram over the given strictly increasing bucket
    /// bounds, with every count zero.
    pub fn new(bounds: Vec<u64>) -> (r: Histogram)
        requires
            bounds@.len() > 0,
            forall|i: int, j: int| 0 <= i < j < bounds@.len() ==> bounds@[i] < bounds@[j],
        ensures
            r.wf(),
            r.spec_bounds() == bounds@,
            r.spec_counts().len() == bounds@.len(),
            forall|i: int| 0 <= i < bounds@.len() ==> r.spec_counts()[i] == 0,
            r.spec_total() == 0,
    {
        let n = bounds.len();
        let mut counts: Vec<u64> = Vec::new();
        let mut i: usize = 0;
        while i < n
            invariant
                i <= n,
                counts@.len() == i,
                forall|j: int| 0 <= j < i ==> counts@[j] == 0,
                count_sum(counts@) == 0,
            decreases n - i,
        {
            let ghost prev = counts@;
            counts.push(0);
            proof {
                assert(counts@.drop_last() =~= prev);
            }
            i = i + 1;
        }
        Histogram { bounds, counts, total: 0 }
    }

    /// The total number of recorded samples.
    pub fn total(&self) -> (r: u64)
        ensures
            r == self.spec_total(),
    {
        self.total
    }

    /// The number of buckets.
    pub fn bucket_count(&self) -> (r: usize)
        ensures
            r == self.spec_bounds().len(),
    {
        self.bounds.len()
    }

    /// Record one sample of the given duration: the count of the bucket the
    /// sample falls into rises by one and every other count is unchanged.
    pub fn add(&mut self, duration_ms: u64)
        requires
            old(self).wf(),
            old(self).spec_total() < u64::MAX,
        ensures
            final(self).wf(),
            final(self).spec_bounds() == old(self).spec_bounds(),
            final(self).spec_counts() == old(self).spec_counts().update(
                target_index(old(self).spec_bounds(), duration_ms),
                (old(self).spec_counts()[target_index(old(self).spec_bounds(), duration_ms)] + 1) as u64,
            ),
            final(self).spec_total() == old(self).spec_total() + 1,
    {
        let k = self.find_bucket(duration_ms);
        proof {
            lemma_count_sum_element_bound(self.counts@, k as int);
        }
        let c = self.counts[k];
        self.counts[k] = c + 1;
        self.total = self.total + 1;
        proof {
            lemma_count_sum_update(old(self).spec_counts(), k as int, (c + 1) as u64);
        }
    }

    /// Reset every count to zero, keeping the bucket bounds.
    pub fn reset(&mut self)
        requires
            old(self).wf(),
        ensures
            final(self).wf(),
            final(self).spec_bounds() == old(self).spec_bounds(),
            final(self).spec_counts().len() == old(self).spec_counts().len(),
            forall|i: int| 0 <= i < final(self).spec_counts().len() ==> final(self).spec_counts()[i] == 0,
            final(self).spec_total() == 0,
    {
        let n = self.counts.len();
        let mut i: usize = 0;
        while i < n
            invariant
                i <= n,
                self.counts@.len() == n,
                self.bounds@ == old(self).bounds@,
                self.bounds@.len() == n,
                forall|j: int| 0 <= j < i ==> self.counts@[j] == 0,
                forall|j: int, l: int| 0 <= j < l < n ==> self.bounds@[j] < self.bounds@[l],
            decreases n - i,
        {
            self.counts[i] = 0;
            i = i + 1;
        }
        self.total = 0;
        proof {
            lemma_count_sum_all_zero(self.counts@);
        }
    }

    /// The index of the bucket that a sample of duration `d` falls into.
    fn find_bucket(&self, d: u64) -> (k: usize)
        requires
            self.wf(),
        ensures
            k as int == target_index(self.spec_bounds(), d),
            k < self.spec_bounds().len(),
    {
        let n = self.bounds.len();
        let mut i: usize = 0;
        while i + 1 < n && self.bounds[i] < d
            invariant
                self.wf(),
                n == self.spec_bounds().len(),
                i < n,
                forall|j: int| 0 <= j < i ==> self.spec_bounds()[j] < d,
            decreases n - i,
        {
            i = i + 1;
        }
        proof {
            lemma_target_index_is(self.spec_bounds(), d, i as int);
        }
        i
    }

    /// Approximate quantile lookup: the upper bound of the smallest bucket
    /// whose cumulative count, as a fraction of the total count, reaches
    /// `q`; `None` when no sample has been recorded.
    pub fn quantile(&self, q: Quantile) -> (r: Option<u64>)
        requires
            self.wf(),
            q.wf(),
        ensures
            r == self.spec_quantile(q),
            r is None <==> self.spec_total() == 0,
    {
        if self.total == 0 {
            return None;
        }
        let ghost cseq = self.spec_counts();
        let ghost den = q.den as int;
        let ghost need = q.num as int * self.spec_total();
        let n = self.counts.len();
        let mut i: usize = 0;
        let mut acc: u64 = 0;
        loop
            invariant
                self.wf(),
                q.wf(),
                self.spec_total() > 0,
                cseq == self.spec_counts(),
                den == q.den as int,
                need == q.num as int * self.spec_total(),
                n == cseq.len(),
                i < n,
                acc == prefix_sum(cseq, i as int),
                quantile_index_from(cseq, den, need, 0) == quantile_index_from(cseq, den, need, i as int),
            ensures
                i < n,
                i as int == quantile_index_from(cseq, den, need, 0),
            decreases n - i,
        {
            if i + 1 == n {
                break;
            }
            proof {
                lemma_prefix_sum_unfold(cseq, i as int);
                lemma_prefix_sum_le_total(cseq, i as int + 1);
                assert((acc + cseq[i as int]) * den <= (u64::MAX as int) * (u64::MAX as int))
                    by (nonlinear_arith)
                    requires
                        0 <= acc + cseq[i as int] <= u64::MAX as int,
                        0 <= den <= u64::MAX as int,
                ;
                assert(need <= (u64::MAX as int) * (u64::MAX as int)) by (nonlinear_arith)
                    requires
                        0 <= q.num as int <= u64::MAX as int,
                        0 <= self.spec_total() <= u64::MAX as int,
                        need == q.num as int * self.spec_total(),
                ;
            }
            let next: u64 = acc + self.counts[i];
            if (next as u128) * (q.den as u128) >= (q.num as u128) * (self.total as u128) {
                break;
            }
            acc = next;
            i = i + 1;
        }
        Some(self.bounds[i])
    }
}

/// Every count is at most the sum of all counts.
pub proof fn lemma_count_sum_element_bound(s: Seq<u64>, i: int)
    requires
        0 <= i < s.len(),
    ensures
        s[i] <= count_sum(s),
    decreases s.len(),
{
    lemma_count_sum_nonneg(s.drop_last());
    if i < s.len() - 1 {
        lemma_count_sum_element_bound(s.drop_last(), i);
    }
}

/// The sum of counts is never negative.
pub proof fn lemma_count_sum_nonneg(s: Seq<u64>)
    ensures
        count_sum(s) >= 0,
    decreases s.len(),
{
    if s.len() > 0 {
        lemma_count_sum_nonneg(s.drop_last());
    }
}

/// Replacing the count at `k` changes the sum by the difference.
pub proof fn lemma_count_sum_update(s: Seq<u64>, k: int, v: u64)
    requires
        0 <= k < s.len(),
    ensures
        count_sum(s.update(k, v)) == count_sum(s) - s[k] + v,
    decreases s.len(),
{
    let s2 = s.update(k, v);
    if k == s.len() - 1 {
        assert(s2.drop_last() =~= s.drop_last());
    } else {
        assert(s2.drop_last() =~= s.drop_last().update(k, v));
        lemma_count_sum_update(s.drop_last(), k, v);
    }
}

/// A sequence of all-zero counts sums to zero.
pub proof fn lemma_count_sum_all_zero(s: Seq<u64>)
    requires
        forall|i: int| 0 <= i < s.len() ==> s[i] == 0,
    ensures
        count_sum(s) == 0,
    decreases s.len(),
{
    if s.len() > 0 {
        lemma_count_sum_all_zero(s.drop_last());
    }
}

/// Taking one more element extends the prefix sum by that element.
pub proof fn lemma_prefix_sum_unfold(s: Seq<u64>, i: int)
    requires
        0 <= i < s.len(),
    ensures
        prefix_sum(s, i + 1) == prefix_sum(s, i) + s[i],
{
    assert(s.take(i + 1).drop_last() =~= s.take(i));
    assert(s.take(i + 1).last() == s[i]);
}

/// Every prefix sum is at most the total sum.
pub proof fn lemma_prefix_sum_le_total(s: Seq<u64>, i: int)
    requires
        0 <= i <= s.len(),
    ensures
        prefix_sum(s, i) <= count_sum(s),
    decreases s.len() - i,
{
    if i == s.len() {
        assert(s.take(i) =~= s);
    } else {
        lemma_prefix_sum_unfold(s, i);
        lemma_prefix_sum_le_total(s, i + 1);
    }
}

/// `target_index` lands in range, meets its bound unless it is the last
/// bucket, and every earlier bound is below the sample.
pub proof fn lemma_target_index_props(bounds: Seq<u64>, d: u64)
    requires
        bounds.len() > 0,
    ensures
        0 <= target_index(bounds, d) < bounds.len(),
        bounds[target_index(bounds, d)] >= d || target_index(bounds, d) == bounds.len() - 1,
        forall|j: int| 0 <= j < target_index(bounds, d) ==> bounds[j] < d,
    decreases bounds.len(),
{
    if bounds.len() > 1 && bounds[0] < d {
        lemma_target_index_props(bounds.drop_first(), d);
        assert forall|j: int| 0 <= j < target_index(bounds, d) implies bounds[j] < d by {
            if j > 0 {
                assert(bounds.drop_first()[j - 1] == bounds[j]);
            }
        }
    }
}

/// `quantile_index_from` lands at or after its starting point, reaches the
/// scaled threshold unless it is the last bucket, and every bucket skipped
/// over falls short of the threshold.
pub proof fn lemma_quantile_index_from_props(counts: Seq<u64>, den: int, need: int, i: int)
    requires
        counts.len() > 0,
        0 <= i <= counts.len() - 1,
    ensures
        i <= quantile_index_from(counts, den, need, i) < counts.len(),
        prefix_sum(counts, quantile_index_from(counts, den, need, i) + 1) * den >= need
            || quantile_index_from(counts, den, need, i) == counts.len() - 1,
        forall|j: int|
            i <= j < quantile_index_from(counts, den, need, i) ==> #[trigger] prefix_sum(counts, j + 1) * den
                < need,
    decreases counts.len() - i,
{
    if i < counts.len() - 1 && prefix_sum(counts, i + 1) * den < need {
        lemma_quantile_index_from_props(counts, den, need, i + 1);
    }
}

/// If every bucket before `m` falls short of the scaled threshold, the
/// quantile query resolves at or after `m`.
pub proof fn lemma_quantile_index_lower_bound(counts: Seq<u64>, den: int, need: int, m: int)
    requires
        counts.len() > 0,
        0 <= m <= counts.len() - 1,
        forall|j: int| 0 <= j < m ==> #[trigger] prefix_sum(counts, j + 1) * den < need,
    ensures
        quantile_index_from(counts, den, need, 0) >= m,
{
    lemma_quantile_index_from_props(counts, den, need, 0);
}

/// An index whose own cumulative count reaches the scaled threshold (or that
/// is the last bucket), with every earlier bucket falling short, is exactly
/// where the quantile query resolves.
pub proof fn lemma_quantile_index_is(counts: Seq<u64>, den: int, need: int, m: int)
    requires
        counts.len() > 0,
        0 <= m <= counts.len() - 1,
        prefix_sum(counts, m + 1) * den >= need || m == counts.len() - 1,
        forall|j: int| 0 <= j < m ==> #[trigger] prefix_sum(counts, j + 1) * den < need,
    ensures
        quantile_index_from(counts, den, need, 0) == m,
{
    lemma_quantile_index_from_props(counts, den, need, 0);
}

/// Replacing the count at `k` leaves every prefix sum through `k` unchanged
/// and shifts every longer prefix sum by the difference.
pub proof fn lemma_prefix_sum_update(s: Seq<u64>, k: int, v: u64, m: int)
    requires
        0 <= k < s.len(),
        0 <= m <= s.len(),
    ensures
        m <= k ==> prefix_sum(s.update(k, v), m) == prefix_sum(s, m),
        m > k ==> prefix_sum(s.update(k, v), m) == prefix_sum(s, m) - s[k] + v,
{
    if m <= k {
        assert(s.update(k, v).take(m) =~= s.take(m));
    } else {
        assert(s.update(k, v).take(m) =~= s.take(m).update(k, v));
        lemma_count_sum_update(s.take(m), k, v);
    }
}

/// Any index below the sample on every earlier bound, and at or above it on
/// its own bound (or last), is `target_index`.
pub proof fn lemma_target_index_is(bounds: Seq<u64>, d: u64, k: int)
    requires
        bounds.len() > 0,
        0 <= k < bounds.len(),
        bounds[k] >= d || k == bounds.len() - 1,
        forall|j: int| 0 <= j < k ==> bounds[j] < d,
    ensures
        k == target_index(bounds, d),
{
    lemma_target_index_props(bounds, d);
}

/// What the quantile lookup means in the terms of the data model: for a
/// histogram holding samples, the value returned for `q` is the upper bound
/// of the smallest bucket whose cumulative count, as a fraction of the
/// total count, reaches `q` — such a bucket always exists, since `q` is at
/// most one.
pub proof fn lemma_quantile_characterization(h: Histogram, q: Quantile)
    requires
        h.wf(),
        q.wf(),
        h.spec_total() > 0,
    ensures
        ({
            let k = quantile_index(h.spec_counts(), q.num as int, q.den as int);
            &&& 0 <= k < h.spec_bounds().len()
            &&& h.spec_quantile(q) == Some(h.spec_bounds()[k])
            &&& prefix_sum(h.spec_counts(), k + 1) * (q.den as int) >= (q.num as int)
                * h.spec_total()
            &&& forall|j: int|
                0 <= j < k ==> #[trigger] prefix_sum(h.spec_counts(), j + 1) * (q.den as int) < (
                q.num as int) * h.spec_total()
        }),
{
    let c = h.spec_counts();
    let den = q.den as int;
    let num = q.num as int;
    let need = num * h.spec_total();
    lemma_quantile_index_from_props(c, den, need, 0);
    let k = quantile_index_from(c, den, need, 0);
    if k == c.len() - 1 {
        assert(c.take(c.len() as int) =~= c);
        assert(prefix_sum(c, k + 1) == count_sum(c));
        assert(count_sum(c) * den >= num * count_sum(c)) by (nonlinear_arith)
            requires
                num <= den,
                count_sum(c) >= 0,
        ;
    }
}

/// Histogram monotonicity: recording a sample never lowers the bucket that
/// the full quantile (`q` equal to one) resolves to, and that bucket's bound
/// is always at least the bound of the bucket the sample itself fell into.
/// Here `before` and `after` are the histogram around one `add` of a sample
/// of duration `d`, related exactly as the contract of `add` states.
pub proof fn lemma_full_quantile_monotone(before: Histogram, after: Histogram, d: u64, q: Quantile)
    requires
        before.wf(),
        after.wf(),
        before.spec_total() < u64::MAX,
        q.wf(),
        q.num == q.den,
        after.spec_bounds() == before.spec_bounds(),
        after.spec_counts() == before.spec_counts().update(
            target_index(before.spec_bounds(), d),
            (before.spec_counts()[target_index(before.spec_bounds(), d)] + 1) as u64,
        ),
        after.spec_total() == before.spec_total() + 1,
    ensures
        after.spec_quantile(q) is Some,
        after.spec_quantile(q)->0 >= before.spec_bounds()[target_index(before.spec_bounds(), d)],
        before.spec_total() > 0 ==> after.spec_quantile(q)->0 >= before.spec_quantile(q)->0,
{
    let bounds = before.spec_bounds();
    let c1 = before.spec_counts();
    let c2 = after.spec_counts();
    let t1 = before.spec_total();
    let t2 = after.spec_total();
    let den = q.den as int;
    let k = target_index(bounds, d);
    lemma_target_index_props(bounds, d);
    lemma_count_sum_element_bound(c1, k);
    assert(c2[k] == c1[k] + 1);
    let qi2 = quantile_index_from(c2, den, den * t2, 0);
    assert(quantile_index(c2, q.num as int, q.den as int) == qi2);
    lemma_quantile_index_from_props(c2, den, den * t2, 0);

    assert forall|j: int| 0 <= j < k implies #[trigger] prefix_sum(c2, j + 1) * den < den * t2 by {
        lemma_prefix_sum_update(c1, k, (c1[k] + 1) as u64, j + 1);
        lemma_prefix_sum_le_total(c1, j + 1);
        assert(prefix_sum(c2, j + 1) * den < t2 * den) by (nonlinear_arith)
            requires
                prefix_sum(c2, j + 1) < t2,
                den > 0,
        ;
    }
    lemma_quantile_index_lower_bound(c2, den, den * t2, k);

    if t1 > 0 {
        let qi1 = quantile_index_from(c1, den, den * t1, 0);
        assert(quantile_index(c1, q.num as int, q.den as int) == qi1);
        lemma_quantile_index_from_props(c1, den, den * t1, 0);
        assert forall|j: int| 0 <= j < qi1 implies #[trigger] prefix_sum(c2, j + 1) * den < den * t2 by {
            assert(prefix_sum(c1, j + 1) * den < den * t1);
            assert(prefix_sum(c1, j + 1) < t1) by (nonlinear_arith)
                requires
                    prefix_sum(c1, j + 1) * den < den * t1,
                    den > 0,
            ;
            lemma_prefix_sum_update(c1, k, (c1[k] + 1) as u64, j + 1);
            assert(prefix_sum(c2, j + 1) <= prefix_sum(c1, j + 1) + 1);
            assert(prefix_sum(c2, j + 1) * den < t2 * den) by (nonlinear_arith)
                requires
                    prefix_sum(c2, j + 1) < t2,
                    den > 0,
            ;
        }
        lemma_quantile_index_lower_bound(c2, den, den * t2, qi1);
    }
}

/// A single sample of duration `d` recorded into an empty histogram makes
/// every quantile query return the bound of the bucket containing `d`.
/// Here `before` and `after` are related exactly as the contract of `add`
/// states.
pub proof fn lemma_single_sample_quantile(before: Histogram, after: Histogram, d: u64, q: Quantile)
    requires
        before.wf(),
        after.wf(),
        before.spec_total() == 0,
        q.wf(),
        after.spec_bounds() == before.spec_bounds(),
        after.spec_counts() == before.spec_counts().update(
            target_index(before.spec_bounds(), d),
            (before.spec_counts()[target_index(before.spec_bounds(), d)] + 1) as u64,
        ),
        after.spec_total() == 1,
    ensures
        after.spec_quantile(q) == Some(
            before.spec_bounds()[target_index(before.spec_bounds(), d)],
        ),
{
    let bounds = before.spec_bounds();
    let c1 = before.spec_counts();
    let c2 = after.spec_counts();
    let den = q.den as int;
    let num = q.num as int;
    let k = target_index(bounds, d);
    lemma_target_index_props(bounds, d);
    lemma_count_sum_element_bound(c1, k);
    assert forall|j: int| 0 <= j < k implies #[trigger] prefix_sum(c2, j + 1) * den < num * 1 by {
        lemma_prefix_sum_update(c1, k, (c1[k] + 1) as u64, j + 1);
        lemma_prefix_sum_le_total(c1, j + 1);
        lemma_count_sum_nonneg(c1.take(j + 1));
        assert(prefix_sum(c2, j + 1) == 0);
    }
    lemma_prefix_sum_update(c1, k, (c1[k] + 1) as u64, k + 1);
    lemma_prefix_sum_le_total(c1, k + 1);
    lemma_count_sum_nonneg(c1.take(k + 1));
    assert(prefix_sum(c2, k + 1) == 1);
    lemma_quantile_index_is(c2, den, num * 1, k);
}

} // verus!
