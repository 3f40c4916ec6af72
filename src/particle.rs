//! One animated sprite: its motion, its opacity envelope and its timer.

use vstd::prelude::*;
use crate::timer::{Timer, ONE};

verus! {

/// Lifetime of every particle: 2.4 seconds, in microseconds.
pub const PARTICLE_LIFETIME: u64 = 2_400_000;

/// Largest value `u64` can hold, where distance travelled saturates.
pub const TRAVEL_LIMIT: u64 = 0xFFFF_FFFF_FFFF_FFFF;

/// An opaque colour; the particle's opacity is kept beside it.
#[derive(Clone, Copy, Debug, PartialEq, Eq, Structural)]
pub struct Tint {
    pub r: u8,
    pub g: u8,
    pub b: u8,
}

/// A particle. Its drift is held in polar form: `heading` (millionths of a
/// turn) and `speed` (milli-units per second). `travel` is the distance in
/// nano-units covered along the heading since spawning, so the particle
/// stands at `origin + travel * (cos, sin)(heading)`; `origin_x` and
/// `origin_y` are in nano-units. `peak_alpha` and `alpha` are in millionths,
/// `size` in milli-units.
#[derive(Clone, Copy, Debug, PartialEq, Eq, Structural)]
pub struct Particle {
    pub origin_x: i64,
    pub origin_y: i64,
    pub heading: u64,
    pub speed: u64,
    pub travel: u64,
    pub peak_alpha: u64,
    pub size: u64,
    pub sprite_index: usize,
    pub tint: Tint,
    pub alpha: u64,
    pub timer: Timer,
}

/// Triangular opacity envelope: zero at both ends of life, `peak` at
/// midlife, linear in between. `progress` and the result are in millionths.
pub open spec fn envelope_spec(progress: int, peak: int) -> int {
    let two_f_minus_one = 2 * progress - ONE as int;
    let dist = if two_f_minus_one >= 0 { two_f_minus_one } else { -two_f_minus_one };
    (peak * (ONE as int - dist)) / ONE as int
}

/// Distance after moving at `speed` for `dt`, saturating at `TRAVEL_LIMIT`.
pub open spec fn travelled(travel: u64, speed: u64, dt: u64) -> u64 {
    let t = travel as int + speed as int * dt as int;
    if t >= TRAVEL_LIMIT as int {
        TRAVEL_LIMIT
    } else {
        t as u64
    }
}

/// The particle after one update pass with frame time `dt`.
pub open spec fn advanced(p: Particle, dt: u64) -> Particle {
    Particle {
        alpha: envelope_spec(p.timer.progress_spec(), p.peak_alpha as int) as u64,
        travel: travelled(p.travel, p.speed, dt),
        ..p
    }
}

proof fn lemma_envelope_bounded(progress: int, peak: int)
    requires
        0 <= progress <= ONE as int,
        0 <= peak <= ONE as int,
    ensures
        0 <= envelope_spec(progress, peak) <= peak,
{
    let two_f_minus_one = 2 * progress - ONE as int;
    let dist = if two_f_minus_one >= 0 { two_f_minus_one } else { -two_f_minus_one };
    let tri = ONE as int - dist;
    assert(0 <= tri <= ONE as int);
    assert(0 <= peak * tri <= peak * ONE as int) by (nonlinear_arith)
        requires
            0 <= tri <= ONE as int,
            0 <= peak,
    ;
    assert(0 <= (peak * tri) / ONE as int <= (peak * ONE as int) / ONE as int) by (nonlinear_arith)
        requires
            0 <= peak * tri <= peak * ONE as int,
    ;
    assert((peak * ONE as int) / ONE as int == peak) by (nonlinear_arith);
}

/// Opacity for the given progress and peak opacity, all in millionths.
pub fn envelope(progress: u64, peak: u64) -> (r: u64)
    requires
        progress <= ONE,
        peak <= ONE,
    ensures
        r == envelope_spec(progress as int, peak as int),
        r <= peak,
{
    proof {
        lemma_envelope_bounded(progress as int, peak as int);
    }
    let dist: u64 = if 2 * progress >= ONE {
        2 * progress - ONE
    } else {
        ONE - 2 * progress
    };
    let r = (peak as u128 * (ONE - dist) as u128) / ONE as u128;
    r as u64
}

impl Particle {
    pub open spec fn wf(self) -> bool {
        &&& self.timer.wf()
        &&& self.peak_alpha <= ONE
    }

    /// One update pass: the opacity follows the envelope at the timer's
    /// current progress, and the particle drifts on for `dt` microseconds.
    /// Nothing but opacity and distance travelled changes.
    pub fn advance(&mut self, dt: u64)
        requires
            old(self).wf(),
        ensures
            *final(self) == advanced(*old(self), dt),
            final(self).wf(),
    {
        let f = self.timer.progress();
        self.alpha = envelope(f, self.peak_alpha);
        proof {
            let (s, d) = (self.speed as int, dt as int);
            assert(s * d <= TRAVEL_LIMIT as int * TRAVEL_LIMIT as int) by (nonlinear_arith)
                requires
                    0 <= s <= TRAVEL_LIMIT as int,
                    0 <= d <= TRAVEL_LIMIT as int,
            ;
        }
        let moved = self.travel as u128 + self.speed as u128 * dt as u128;
        if moved >= TRAVEL_LIMIT as u128 {
            self.travel = TRAVEL_LIMIT;
        } else {
            self.travel = moved as u64;
        }
    }
}

} // verus!
