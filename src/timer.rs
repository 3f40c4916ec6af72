//! Time-to-live tracking for one timed entity.

use vstd::prelude::*;

verus! {

/// Fixed-point denominator for fractions: one whole is a million parts.
pub const ONE: u64 = 1_000_000;

/// Elapsed life and total lifetime of a timed entity, in microseconds.
#[derive(Clone, Copy, Debug, PartialEq, Eq, Structural)]
pub struct Timer {
    pub elapsed: u64,
    pub lifetime: u64,
}

/// Elapsed after accumulating `dt`: the sum, clamped at the lifetime.
pub open spec fn accumulated_elapsed(elapsed: u64, lifetime: u64, dt: u64) -> u64 {
    if elapsed + dt >= lifetime {
        lifetime
    } else {
        (elapsed + dt) as u64
    }
}

/// The timer after a whole sequence of `accumulate` calls.
pub open spec fn accumulate_all(t: Timer, dts: Seq<u64>) -> Timer
    decreases dts.len(),
{
    if dts.len() == 0 {
        t
    } else {
        let prev = accumulate_all(t, dts.drop_last());
        Timer { elapsed: accumulated_elapsed(prev.elapsed, prev.lifetime, dts.last()), ..prev }
    }
}

impl Timer {
    /// A live timer never runs past its lifetime, and its lifetime is positive.
    pub open spec fn wf(self) -> bool {
        &&& self.lifetime > 0
        &&& self.elapsed <= self.lifetime
    }

    /// Progress as an exact fraction scaled to `ONE`, rounded down.
    pub open spec fn progress_spec(self) -> int {
        (self.elapsed as int * ONE as int) / self.lifetime as int
    }

    pub open spec fn expired_spec(self) -> bool {
        self.elapsed >= self.lifetime
    }

    /// A fresh timer with nothing elapsed.
    pub fn new(lifetime: u64) -> (t: Timer)
        requires
            lifetime > 0,
        ensures
            t.wf(),
            t.elapsed == 0,
            t.lifetime == lifetime,
    {
        Timer { elapsed: 0, lifetime }
    }

    /// Advances the timer by `dt`, never past its lifetime.
    pub fn accumulate(&mut self, dt: u64)
        requires
            old(self).wf(),
        ensures
            final(self).wf(),
            final(self).lifetime == old(self).lifetime,
            final(self).elapsed == accumulated_elapsed(old(self).elapsed, old(self).lifetime, dt),
            final(self).elapsed >= old(self).elapsed,
    {
        if dt >= self.lifetime - self.elapsed {
            self.elapsed = self.lifetime;
        } else {
            self.elapsed = self.elapsed + dt;
        }
    }

    /// Elapsed over lifetime, in millionths: 0 when fresh, `ONE` when done.
    pub fn progress(&self) -> (r: u64)
        requires
            self.wf(),
        ensures
            r == self.progress_spec(),
            r <= ONE,
    {
        proof {
            lemma_scaled_ratio_bounded(self.elapsed as int, self.lifetime as int);
        }
        let r = (self.elapsed as u128 * ONE as u128) / self.lifetime as u128;
        r as u64
    }

    /// Whether the timer has reached its lifetime.
    pub fn expired(&self) -> (r: bool)
        ensures
            r == self.expired_spec(),
    {
        self.elapsed >= self.lifetime
    }
}

proof fn lemma_scaled_ratio_bounded(e: int, l: int)
    requires
        0 <= e <= l,
        0 < l,
    ensures
        0 <= (e * ONE as int) / l <= ONE as int,
{
    assert(0 <= e * ONE as int <= l * ONE as int) by (nonlinear_arith)
        requires
            0 <= e <= l,
    ;
    assert((l * ONE as int) / l == ONE as int) by (nonlinear_arith)
        requires
            0 < l,
    ;
    assert(0 <= (e * ONE as int) / l <= (l * ONE as int) / l) by (nonlinear_arith)
        requires
            0 <= e * ONE as int <= l * ONE as int,
            0 < l,
    ;
}

/// Accumulating any sequence of time steps never moves a timer backwards and
/// never takes it past its lifetime: between any two points of the sequence,
/// elapsed only grows, and it stays within the lifetime throughout.
pub proof fn lemma_accumulate_monotone(t: Timer, dts: Seq<u64>, i: int, j: int)
    requires
        t.wf(),
        0 <= i <= j <= dts.len(),
    ensures
        accumulate_all(t, dts.take(i)).elapsed <= accumulate_all(t, dts.take(j)).elapsed,
        accumulate_all(t, dts.take(j)).elapsed <= t.lifetime,
        accumulate_all(t, dts.take(j)).lifetime == t.lifetime,
    decreases j - i,
{
    lemma_accumulate_wf(t, dts.take(j));
    if i < j {
        lemma_accumulate_monotone(t, dts, i, j - 1);
        assert(dts.take(j).drop_last() =~= dts.take(j - 1));
    }
}

/// Accumulation keeps a timer well formed and its lifetime unchanged.
pub proof fn lemma_accumulate_wf(t: Timer, dts: Seq<u64>)
    requires
        t.wf(),
    ensures
        accumulate_all(t, dts).wf(),
        accumulate_all(t, dts).lifetime == t.lifetime,
    decreases dts.len(),
{
    if dts.len() > 0 {
        lemma_accumulate_wf(t, dts.drop_last());
    }
}

/// A fresh timer advanced `k` times by the same positive step has elapsed
/// `min(k * dt, lifetime)`, so it expires exactly at the first step count
/// `k` with `k * dt >= lifetime`.
pub proof fn lemma_steady_steps(lifetime: u64, dt: u64, k: nat)
    requires
        lifetime > 0,
        dt > 0,
    ensures
        accumulate_all(Timer { elapsed: 0, lifetime }, Seq::new(k, |i: int| dt)).elapsed
            == if k * dt >= lifetime { lifetime as int } else { k * dt },
        accumulate_all(Timer { elapsed: 0, lifetime }, Seq::new(k, |i: int| dt)).expired_spec()
            <==> k * dt >= lifetime,
    decreases k,
{
    let t = Timer { elapsed: 0, lifetime };
    if k > 0 {
        let k1 = (k - 1) as nat;
        lemma_steady_steps(lifetime, dt, k1);
        let s = Seq::new(k, |i: int| dt);
        assert(s.drop_last() =~= Seq::new(k1, |i: int| dt));
        assert(s.last() == dt);
        let prev = accumulate_all(t, s.drop_last());
        lemma_accumulate_wf(t, s.drop_last());
        assert(accumulate_all(t, s).elapsed == accumulated_elapsed(prev.elapsed, lifetime, dt));
        assert(k * dt == k1 * dt + dt) by (nonlinear_arith)
            requires
                k == k1 + 1,
        ;
        assert(k1 * dt <= k * dt) by (nonlinear_arith)
            requires
                k == k1 + 1,
        ;
    }
}

} // verus!
