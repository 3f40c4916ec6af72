//! Deciding once per frame whether a particle appears, and with what
//! randomly drawn parameters.

use vstd::prelude::*;
use crate::timer::{Timer, ONE};
use crate::particle::{Particle, Tint, PARTICLE_LIFETIME};

verus! {

/// Microseconds in a second.
pub const MICROS_PER_SECOND: u64 = 1_000_000;
/// Nano-units in one unit (one pixel of the viewport).
pub const NANOS_PER_UNIT: u64 = 1_000_000_000;
/// Viewport that the spawn rate is normalised to.
pub const REF_WIDTH: u64 = 1920;
pub const REF_HEIGHT: u64 = 1080;
/// Expected spawns per second on the reference viewport: 2/5.
pub const RATE_NUM: u64 = 2;
pub const RATE_DEN: u64 = 5;
/// A full turn, in the units of a heading.
pub const TURN: u64 = 1_000_000;
/// Drift speed range, milli-units per second (upper bound excluded).
pub const MIN_SPEED: u64 = 16_000;
pub const MAX_SPEED: u64 = 64_000;
/// Peak opacity range, millionths (upper bound excluded).
pub const MIN_PEAK: u64 = 300_000;
pub const MAX_PEAK: u64 = 700_000;
/// Size range, milli-units (upper bound excluded).
pub const MIN_SIZE: u64 = 24_000;
pub const MAX_SIZE: u64 = 84_000;
/// The tint of every particle: #251240.
pub const TINT_R: u8 = 0x25;
pub const TINT_G: u8 = 0x12;
pub const TINT_B: u8 = 0x40;

/// Current size of the drawing surface, in whole units.
#[derive(Clone, Copy, Debug, PartialEq, Eq, Structural)]
pub struct Viewport {
    pub width: u32,
    pub height: u32,
}

/// The random values one spawn decision consumes. `roll` is the uniform
/// draw in millionths; `x` and `y` are offsets in nano-units from the
/// viewport's lower-left corner.
#[derive(Clone, Copy, Debug, PartialEq, Eq, Structural)]
pub struct SpawnDraw {
    pub roll: u64,
    pub heading: u64,
    pub speed: u64,
    pub peak_alpha: u64,
    pub size: u64,
    pub x: u64,
    pub y: u64,
}

/// Extent of a viewport side in nano-units.
pub open spec fn span(side: u32) -> int {
    side as int * NANOS_PER_UNIT as int
}

/// A coordinate drawn uniformly over a side: below its span, or zero when
/// the side is empty.
pub open spec fn offset_valid(v: u64, side: u32) -> bool {
    if side == 0 { v == 0 } else { v < span(side) }
}

/// Every value of the draw lies in the range it is sampled from.
pub open spec fn draw_valid(d: SpawnDraw, vp: Viewport) -> bool {
    &&& d.roll < ONE
    &&& d.heading < TURN
    &&& MIN_SPEED <= d.speed < MAX_SPEED
    &&& MIN_PEAK <= d.peak_alpha < MAX_PEAK
    &&& MIN_SIZE <= d.size < MAX_SIZE
    &&& offset_valid(d.x, vp.width)
    &&& offset_valid(d.y, vp.height)
}

/// `roll * dt <= chance * 2/5` with `chance = area / reference area`, with
/// the roll in millionths and `dt` in microseconds, cleared of fractions.
pub open spec fn spawn_condition(roll: int, dt: int, width: int, height: int) -> bool {
    roll * dt * (REF_WIDTH * REF_HEIGHT * RATE_DEN) as int
        <= width * height * (RATE_NUM * ONE * MICROS_PER_SECOND) as int
}

/// The particle a valid draw produces: centred on the viewport, fresh, and
/// fully transparent.
pub open spec fn spawned_spec(d: SpawnDraw, vp: Viewport, sprite_index: usize) -> Particle {
    Particle {
        origin_x: (d.x as int - span(vp.width) / 2) as i64,
        origin_y: (d.y as int - span(vp.height) / 2) as i64,
        heading: d.heading,
        speed: d.speed,
        travel: 0,
        peak_alpha: d.peak_alpha,
        size: d.size,
        sprite_index,
        tint: Tint { r: TINT_R, g: TINT_G, b: TINT_B },
        alpha: 0,
        timer: Timer { elapsed: 0, lifetime: PARTICLE_LIFETIME },
    }
}

/// Whether a frame of `dt` microseconds spawns a particle on `vp`, given the
/// uniform draw `roll` in millionths.
pub fn spawn_chance_met(roll: u64, dt: u64, vp: Viewport) -> (r: bool)
    requires
        roll < ONE,
    ensures
        r == spawn_condition(roll as int, dt as int, vp.width as int, vp.height as int),
{
    proof {
        let (u, t) = (roll as int, dt as int);
        assert(u * t <= ONE as int * 0x1_0000_0000_0000_0000) by (nonlinear_arith)
            requires
                0 <= u < ONE as int,
                0 <= t < 0x1_0000_0000_0000_0000,
        ;
        assert(u * t * (REF_WIDTH * REF_HEIGHT * RATE_DEN) as int
            <= ONE as int * 0x1_0000_0000_0000_0000 * (REF_WIDTH * REF_HEIGHT * RATE_DEN) as int)
            by (nonlinear_arith)
            requires
                0 <= u * t <= ONE as int * 0x1_0000_0000_0000_0000,
        ;
        let (w, h) = (vp.width as int, vp.height as int);
        assert(w * h <= 0x1_0000_0000 * 0x1_0000_0000) by (nonlinear_arith)
            requires
                0 <= w < 0x1_0000_0000,
                0 <= h < 0x1_0000_0000,
        ;
        assert(w * h * (RATE_NUM * ONE * MICROS_PER_SECOND) as int
            <= 0x1_0000_0000 * 0x1_0000_0000 * (RATE_NUM * ONE * MICROS_PER_SECOND) as int)
            by (nonlinear_arith)
            requires
                0 <= w * h <= 0x1_0000_0000 * 0x1_0000_0000,
        ;
    }
    let area = vp.width as u128 * vp.height as u128;
    let lhs = roll as u128 * dt as u128 * (REF_WIDTH * REF_HEIGHT * RATE_DEN) as u128;
    let rhs = area * (RATE_NUM * ONE * MICROS_PER_SECOND) as u128;
    lhs <= rhs
}

/// Relies on rand's `thread_rng` and `Rng::gen_range`: a value drawn
/// uniformly from `0..bound`, which `gen_range` guarantees to lie in the
/// range (it panics only on an empty range).
#[verifier::external_body]
fn draw_below(bound: u64) -> (r: u64)
    requires
        bound > 0,
    ensures
        r < bound,
{
    rand::Rng::gen_range(&mut rand::thread_rng(), 0..bound)
}

/// A value drawn from `lo..hi`.
fn draw_between(lo: u64, hi: u64) -> (r: u64)
    requires
        lo < hi,
    ensures
        lo <= r < hi,
{
    lo + draw_below(hi - lo)
}

/// A coordinate drawn over one viewport side, in nano-units.
fn draw_offset(side: u32) -> (r: u64)
    ensures
        offset_valid(r, side),
{
    if side == 0 {
        0
    } else {
        draw_below(side as u64 * NANOS_PER_UNIT)
    }
}

/// Draws every random value that one spawn decision on `vp` consumes.
pub fn draw_spawn(vp: Viewport) -> (d: SpawnDraw)
    ensures
        draw_valid(d, vp),
{
    let roll = draw_below(ONE);
    let heading = draw_below(TURN);
    let speed = draw_between(MIN_SPEED, MAX_SPEED);
    let peak_alpha = draw_between(MIN_PEAK, MAX_PEAK);
    let size = draw_between(MIN_SIZE, MAX_SIZE);
    let x = draw_offset(vp.width);
    let y = draw_offset(vp.height);
    SpawnDraw { roll, heading, speed, peak_alpha, size, x, y }
}

impl Particle {
    /// The particle that the draw `d` places on `vp`, drawn with the atlas
    /// sprite `sprite_index`: its origin is uniform over the viewport
    /// centred on zero, its timer fresh and its opacity zero.
    pub fn spawned(d: &SpawnDraw, vp: Viewport, sprite_index: usize) -> (p: Particle)
        requires
            draw_valid(*d, vp),
        ensures
            p == spawned_spec(*d, vp, sprite_index),
            p.wf(),
    {
        let half_w = (vp.width as u64 * NANOS_PER_UNIT / 2) as i64;
        let half_h = (vp.height as u64 * NANOS_PER_UNIT / 2) as i64;
        Particle {
            origin_x: d.x as i64 - half_w,
            origin_y: d.y as i64 - half_h,
            heading: d.heading,
            speed: d.speed,
            travel: 0,
            peak_alpha: d.peak_alpha,
            size: d.size,
            sprite_index,
            tint: Tint { r: TINT_R, g: TINT_G, b: TINT_B },
            alpha: 0,
            timer: Timer::new(PARTICLE_LIFETIME),
        }
    }
}

/// On a frame of positive length, the draws that spawn are exactly the rolls
/// up to a threshold: `floor(area * 2/5 * ONE * 1s / (dt * reference area))`.
/// The chance per frame is therefore `min(1, (threshold + 1) / ONE)`.
pub proof fn lemma_spawn_threshold(roll: int, dt: int, width: int, height: int)
    requires
        0 <= roll,
        0 < dt,
        0 <= width,
        0 <= height,
    ensures
        spawn_condition(roll, dt, width, height) <==> roll <= spawn_threshold(dt, width, height),
{
    let c = (REF_WIDTH * REF_HEIGHT * RATE_DEN) as int;
    let k = dt * c;
    let a = width * height * (RATE_NUM * ONE * MICROS_PER_SECOND) as int;
    assert(c > 0);
    assert(k > 0) by (nonlinear_arith)
        requires
            0 < dt,
            0 < c,
            k == dt * c,
    ;
    assert(roll * dt * c == roll * k) by (nonlinear_arith)
        requires
            k == dt * c,
    ;
    assert(roll * k <= a <==> roll <= a / k) by (nonlinear_arith)
        requires
            k > 0,
            roll >= 0,
    ;
}

/// The largest roll that still spawns on a frame of `dt` microseconds.
pub open spec fn spawn_threshold(dt: int, width: int, height: int) -> int {
    (width * height * (RATE_NUM * ONE * MICROS_PER_SECOND) as int) / (dt * (REF_WIDTH
        * REF_HEIGHT * RATE_DEN) as int)
}

/// Spawning scales with viewport area: on a viewport with a quarter of the
/// area of another, a frame of `dt` spawns for exactly the rolls for which a
/// frame of `4 * dt` spawns on the larger one. Where spawning is uncertain,
/// the chance per frame is thus a quarter of the larger viewport's.
pub proof fn lemma_spawn_area_scaling(roll: int, dt: int, small: Viewport, large: Viewport)
    requires
        4 * (small.width as int * small.height as int) == large.width as int * large.height as int,
    ensures
        spawn_condition(roll, dt, small.width as int, small.height as int)
            <==> spawn_condition(roll, 4 * dt, large.width as int, large.height as int),
{
    let c = (REF_WIDTH * REF_HEIGHT * RATE_DEN) as int;
    let n = (RATE_NUM * ONE * MICROS_PER_SECOND) as int;
    let sa = small.width as int * small.height as int;
    let la = large.width as int * large.height as int;
    assert(roll * (4 * dt) * c == 4 * (roll * dt * c)) by (nonlinear_arith);
    assert(la * n == 4 * (sa * n)) by (nonlinear_arith)
        requires
            la == 4 * sa,
    ;
}

} // verus!
