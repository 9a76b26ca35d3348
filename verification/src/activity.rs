//! Sliding-window activity filter.
//!
//! The transport loop pushes one byte count per poll (zero on a silent
//! poll). The filter keeps the last `capacity` samples and their sum, the
//! "density": a liveness proxy for the device behind the link. A density of
//! zero over a full window means no traffic arrived recently.

use vstd::prelude::*;

verus! {

/// Sum of a window of samples.
pub open spec fn sum_of(s: Seq<u32>) -> int
    decreases s.len(),
{
    if s.len() == 0 {
        0
    } else {
        sum_of(s.drop_last()) + s.last()
    }
}

/// One push: append the sample, evicting the oldest once the window is full.
pub open spec fn window_push(w: Seq<u32>, v: u32, cap: nat) -> Seq<u32> {
    if w.len() < cap {
        w.push(v)
    } else {
        w.drop_first().push(v)
    }
}

/// The window after pushing every sample of `samples` in order.
pub open spec fn window_after(w: Seq<u32>, samples: Seq<u32>, cap: nat) -> Seq<u32>
    decreases samples.len(),
{
    if samples.len() == 0 {
        w
    } else {
        window_after(window_push(w, samples.first(), cap), samples.drop_first(), cap)
    }
}

pub proof fn lemma_sum_nonneg(s: Seq<u32>)
    ensures
        sum_of(s) >= 0,
    decreases s.len(),
{
    if s.len() > 0 {
        lemma_sum_nonneg(s.drop_last());
    }
}

pub proof fn lemma_sum_drop_first(s: Seq<u32>)
    requires
        s.len() > 0,
    ensures
        sum_of(s) == s.first() + sum_of(s.drop_first()),
    decreases s.len(),
{
    if s.len() == 1 {
        assert(s.drop_last() =~= Seq::<u32>::empty());
        assert(s.drop_first() =~= Seq::<u32>::empty());
    } else {
        lemma_sum_drop_first(s.drop_last());
        assert(s.drop_last().drop_first() =~= s.drop_first().drop_last());
        assert(s.drop_first().last() == s.last());
        assert(s.drop_last().first() == s.first());
    }
}

/// Sums stay below `len * u32::MAX`.
pub proof fn lemma_sum_bound(s: Seq<u32>)
    ensures
        sum_of(s) <= s.len() * 0xffff_ffff,
    decreases s.len(),
{
    if s.len() > 0 {
        lemma_sum_bound(s.drop_last());
        assert(s.len() * 0xffff_ffff == (s.len() - 1) * 0xffff_ffff + 0xffff_ffff) by (
        nonlinear_arith);
    }
}

/// Fixed-size FIFO over per-poll byte counts.
pub struct ActivityFilter {
    window: Vec<u32>,
    capacity: usize,
    density: u64,
}

impl ActivityFilter {
    /// The retained samples, oldest first.
    pub closed spec fn view(&self) -> Seq<u32> {
        self.window@
    }

    /// The configured window size.
    pub closed spec fn spec_capacity(&self) -> nat {
        self.capacity as nat
    }

    /// Shape every method preserves: the window never exceeds its size and
    /// the cached density is exactly the window's sum.
    pub closed spec fn well_formed(&self) -> bool {
        &&& 1 <= self.capacity <= 0x1000_0000
        &&& self.window@.len() <= self.capacity
        &&& self.density == sum_of(self.window@)
    }

    pub fn new(capacity: usize) -> (r: ActivityFilter)
        requires
            1 <= capacity <= 0x1000_0000,
        ensures
            r.well_formed(),
            r@ == Seq::<u32>::empty(),
            r.spec_capacity() == capacity,
    {
        ActivityFilter { window: Vec::new(), capacity, density: 0 }
    }

    /// Appends one sample, evicts the oldest past capacity, and returns the
    /// new density (the sum of the retained window).
    pub fn push(&mut self, value: u32) -> (density: u64)
        requires
            old(self).well_formed(),
        ensures
            final(self).well_formed(),
            final(self).spec_capacity() == old(self).spec_capacity(),
            final(self)@ == window_push(old(self)@, value, old(self).spec_capacity()),
            density == sum_of(final(self)@),
    {
        if self.window.len() >= self.capacity {
            let evicted = self.window.remove(0);
            proof {
                lemma_sum_drop_first(old(self).window@);
                lemma_sum_nonneg(self.window@);
            }
            self.density = self.density - evicted as u64;
        }
        let ghost mid = self.window@;
        proof {
            assert(self.density == sum_of(mid));
            lemma_sum_bound(mid);
            lemma_sum_nonneg(mid);
        }
        self.window.push(value);
        proof {
            assert(self.window@.drop_last() =~= mid);
            assert(sum_of(self.window@) == sum_of(mid) + value);
        }
        self.density = self.density + value as u64;
        self.density
    }

    /// Empties the window, used on disconnect so a stale density cannot be
    /// mistaken for liveness.
    pub fn clear(&mut self)
        requires
            old(self).well_formed(),
        ensures
            final(self).well_formed(),
            final(self)@ == Seq::<u32>::empty(),
            final(self).spec_capacity() == old(self).spec_capacity(),
    {
        self.window.clear();
        self.density = 0;
    }

    /// The current density without pushing a sample.
    pub fn current_density(&self) -> (r: u64)
        requires
            self.well_formed(),
        ensures
            r == sum_of(self@),
    {
        self.density
    }

    /// The cached density, for specification use.
    pub closed spec fn density(&self) -> u64 {
        self.density
    }

    /// Pushes every sample of `samples` in order and returns the final
    /// density.
    pub fn push_all(&mut self, samples: &Vec<u32>) -> (density: u64)
        requires
            old(self).well_formed(),
        ensures
            final(self).well_formed(),
            final(self).spec_capacity() == old(self).spec_capacity(),
            final(self)@ == window_after(old(self)@, samples@, old(self).spec_capacity()),
            density == sum_of(final(self)@),
    {
        let ghost cap = self.spec_capacity();
        proof {
            assert(samples@.skip(0) =~= samples@);
        }
        let mut i: usize = 0;
        let mut density = self.current_density();
        while i < samples.len()
            invariant
                self.well_formed(),
                self.spec_capacity() == cap,
                0 <= i <= samples@.len(),
                window_after(self@, samples@.skip(i as int), cap) == window_after(
                    old(self)@,
                    samples@,
                    cap,
                ),
                density == sum_of(self@),
            decreases samples@.len() - i,
        {
            proof {
                assert(samples@.skip(i as int).first() == samples@[i as int]);
                assert(samples@.skip(i as int).drop_first() =~= samples@.skip(i + 1));
            }
            density = self.push(samples[i]);
            i = i + 1;
        }
        proof {
            assert(samples@.skip(i as int) =~= Seq::<u32>::empty());
        }
        density
    }
}

/// After a full window's worth of pushes the retained window is exactly the
/// pushed samples, whatever was there before: eviction is an exact size-W
/// FIFO. In particular the density then equals the sum of those samples, and
/// a window of zeroes brings the density back to zero.
pub proof fn lemma_full_window_overwrites(w: Seq<u32>, samples: Seq<u32>, cap: nat)
    requires
        w.len() <= cap,
        samples.len() == cap,
        1 <= cap,
    ensures
        window_after(w, samples, cap) == samples,
    decreases samples.len(),
{
    lemma_window_after_suffix(w, samples, cap);
    assert((w + samples).skip(w.len() as int) =~= samples);
}

/// General form: pushing `samples` leaves the last `cap` entries of the
/// combined history (or all of it, when shorter).
pub proof fn lemma_window_after_suffix(w: Seq<u32>, samples: Seq<u32>, cap: nat)
    requires
        w.len() <= cap,
        1 <= cap,
    ensures
        window_after(w, samples, cap) == if w.len() + samples.len() <= cap {
            w + samples
        } else {
            (w + samples).skip(w.len() + samples.len() - cap)
        },
    decreases samples.len(),
{
    if samples.len() == 0 {
        assert(w + samples =~= w);
    } else {
        let w1 = window_push(w, samples.first(), cap);
        lemma_window_after_suffix(w1, samples.drop_first(), cap);
        if w.len() < cap {
            assert(w1 + samples.drop_first() =~= w + samples);
        } else {
            assert(w1 + samples.drop_first() =~= (w + samples).skip(1));
            if w1.len() + samples.drop_first().len() > cap {
                assert((w + samples).skip(1).skip(
                    w1.len() + samples.drop_first().len() - cap,
                ) =~= (w + samples).skip(w.len() + samples.len() - cap));
            }
        }
    }
}

/// A window of zero samples sums to zero.
pub proof fn lemma_sum_zeroes(s: Seq<u32>)
    requires
        forall|i: int| 0 <= i < s.len() ==> s[i] == 0,
    ensures
        sum_of(s) == 0,
    decreases s.len(),
{
    if s.len() > 0 {
        lemma_sum_zeroes(s.drop_last());
    }
}

/// After a full window of samples the density is exactly their sum,
/// whatever the window held before.
pub proof fn lemma_full_window_density(w: Seq<u32>, samples: Seq<u32>, cap: nat)
    requires
        w.len() <= cap,
        samples.len() == cap,
        1 <= cap,
    ensures
        sum_of(window_after(w, samples, cap)) == sum_of(samples),
{
    lemma_full_window_overwrites(w, samples, cap);
}

/// After a full window of zeroes the density reads zero, whatever the
/// window held before.
pub proof fn lemma_zero_window_resets_density(w: Seq<u32>, samples: Seq<u32>, cap: nat)
    requires
        w.len() <= cap,
        samples.len() == cap,
        1 <= cap,
        forall|i: int| 0 <= i < samples.len() ==> samples[i] == 0,
    ensures
        sum_of(window_after(w, samples, cap)) == 0,
{
    lemma_full_window_overwrites(w, samples, cap);
    lemma_sum_zeroes(samples);
}

} // verus!
