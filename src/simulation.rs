//! The live-particle collection and the four per-frame passes over it:
//! spawn, update, timer accumulation and reaping.

use vstd::prelude::*;
use crate::timer::{Timer, accumulated_elapsed};
use crate::particle::{Particle, advanced, envelope_spec};
use crate::spawn::{
    SpawnDraw, Viewport, draw_spawn, draw_valid, spawn_chance_met, spawn_condition, spawned_spec,
};

verus! {

/// The live particles, in spawn order, and the atlas index of the sprite
/// they are drawn with (resolved once by the host when assets are ready).
pub struct Simulation {
    pub particles: Vec<Particle>,
    pub sprite_index: usize,
}

/// The collection after the update pass.
pub open spec fn updated(s: Seq<Particle>, dt: u64) -> Seq<Particle> {
    s.map_values(|p: Particle| advanced(p, dt))
}

/// A particle whose timer has advanced by `dt`.
pub open spec fn aged_one(p: Particle, dt: u64) -> Particle {
    Particle {
        timer: Timer {
            elapsed: accumulated_elapsed(p.timer.elapsed, p.timer.lifetime, dt),
            ..p.timer
        },
        ..p
    }
}

/// The collection after the timer-accumulate pass.
pub open spec fn aged(s: Seq<Particle>, dt: u64) -> Seq<Particle> {
    s.map_values(|p: Particle| aged_one(p, dt))
}

/// The particles whose timers have not expired, in the order they had.
pub open spec fn survivors(s: Seq<Particle>) -> Seq<Particle>
    decreases s.len(),
{
    if s.len() == 0 {
        s
    } else {
        let rest = survivors(s.drop_last());
        if s.last().timer.expired_spec() {
            rest
        } else {
            rest.push(s.last())
        }
    }
}

/// The collection after the spawn pass: one new particle when a viewport is
/// known and the roll of `d` meets the spawn condition.
pub open spec fn with_spawn(
    s: Seq<Particle>,
    dt: u64,
    vp: Option<Viewport>,
    d: SpawnDraw,
    sprite_index: usize,
) -> Seq<Particle> {
    match vp {
        Some(v) => if spawn_condition(d.roll as int, dt as int, v.width as int, v.height as int) {
            s.push(spawned_spec(d, v, sprite_index))
        } else {
            s
        },
        None => s,
    }
}

/// One whole frame: spawn, then update, then accumulate, then reap.
pub open spec fn frame_spec(
    s: Seq<Particle>,
    dt: u64,
    vp: Option<Viewport>,
    d: SpawnDraw,
    sprite_index: usize,
) -> Seq<Particle> {
    survivors(aged(updated(with_spawn(s, dt, vp, d, sprite_index), dt), dt))
}

/// A draw that fits the viewport, if there is one.
pub open spec fn draw_fits(d: SpawnDraw, vp: Option<Viewport>) -> bool {
    match vp {
        Some(v) => draw_valid(d, v),
        None => true,
    }
}

pub open spec fn all_wf(s: Seq<Particle>) -> bool {
    forall|i: int| 0 <= i < s.len() ==> #[trigger] s[i].wf()
}

impl Simulation {
    pub open spec fn wf(&self) -> bool {
        all_wf(self.particles@)
    }

    /// An empty simulation drawing with atlas sprite `sprite_index`.
    pub fn new(sprite_index: usize) -> (r: Simulation)
        ensures
            r.wf(),
            r.particles@.len() == 0,
            r.sprite_index == sprite_index,
    {
        Simulation { particles: Vec::new(), sprite_index }
    }

    /// The spawn pass with a given draw. Returns whether a particle was
    /// added; without a viewport nothing is.
    pub fn spawn_from_draw(&mut self, dt: u64, vp: Option<Viewport>, d: &SpawnDraw) -> (spawned: bool)
        requires
            old(self).wf(),
            draw_fits(*d, vp),
        ensures
            final(self).wf(),
            final(self).sprite_index == old(self).sprite_index,
            final(self).particles@ == with_spawn(old(self).particles@, dt, vp, *d, old(self).sprite_index),
            spawned == (final(self).particles@.len() == old(self).particles@.len() + 1),
    {
        match vp {
            Some(v) => {
                if spawn_chance_met(d.roll, dt, v) {
                    let p = Particle::spawned(d, v, self.sprite_index);
                    self.particles.push(p);
                    true
                } else {
                    false
                }
            },
            None => false,
        }
    }

    /// The spawn pass: draws its random values and spawns at most one
    /// particle. Without a viewport it neither draws nor spawns.
    pub fn spawn_particles(&mut self, dt: u64, vp: Option<Viewport>) -> (spawned: bool)
        requires
            old(self).wf(),
        ensures
            final(self).wf(),
            final(self).sprite_index == old(self).sprite_index,
            exists|d: SpawnDraw|
                draw_fits(d, vp) && final(self).particles@ == with_spawn(
                    old(self).particles@,
                    dt,
                    vp,
                    d,
                    old(self).sprite_index,
                ),
            vp is None ==> final(self).particles@ == old(self).particles@,
            spawned == (final(self).particles@.len() == old(self).particles@.len() + 1),
    {
        match vp {
            Some(v) => {
                let d = draw_spawn(v);
                self.spawn_from_draw(dt, vp, &d)
            },
            None => {
                let d = SpawnDraw { roll: 0, heading: 0, speed: 0, peak_alpha: 0, size: 0, x: 0, y: 0 };
                assert(draw_fits(d, vp));
                false
            },
        }
    }

    /// The update pass: every particle advances on its own, as `advanced`
    /// describes, reading and writing nothing of any other.
    pub fn update_particles(&mut self, dt: u64)
        requires
            old(self).wf(),
        ensures
            final(self).wf(),
            final(self).sprite_index == old(self).sprite_index,
            final(self).particles@ == updated(old(self).particles@, dt),
    {
        let n = self.particles.len();
        let mut i: usize = 0;
        while i < n
            invariant
                n == self.particles@.len(),
                n == old(self).particles@.len(),
                i <= n,
                self.sprite_index == old(self).sprite_index,
                all_wf(self.particles@),
                forall|j: int| 0 <= j < i ==> self.particles@[j] == advanced(old(self).particles@[j], dt),
                forall|j: int| i <= j < n ==> self.particles@[j] == old(self).particles@[j],
            decreases n - i,
        {
            let mut p = self.particles[i];
            p.advance(dt);
            self.particles.set(i, p);
            i = i + 1;
        }
        assert(self.particles@ =~= updated(old(self).particles@, dt));
    }

    /// The timer-accumulate pass: every particle's timer advances by `dt`.
    pub fn accumulate_timers(&mut self, dt: u64)
        requires
            old(self).wf(),
        ensures
            final(self).wf(),
            final(self).sprite_index == old(self).sprite_index,
            final(self).particles@ == aged(old(self).particles@, dt),
    {
        let n = self.particles.len();
        let mut i: usize = 0;
        while i < n
            invariant
                n == self.particles@.len(),
                n == old(self).particles@.len(),
                i <= n,
                self.sprite_index == old(self).sprite_index,
                all_wf(self.particles@),
                forall|j: int| 0 <= j < i ==> self.particles@[j] == aged_one(old(self).particles@[j], dt),
                forall|j: int| i <= j < n ==> self.particles@[j] == old(self).particles@[j],
            decreases n - i,
        {
            let mut p = self.particles[i];
            assert(self.particles@[i as int].wf());
            p.timer.accumulate(dt);
            self.particles.set(i, p);
            i = i + 1;
        }
        assert(self.particles@ =~= aged(old(self).particles@, dt));
    }

    /// The reap pass: removes every particle whose timer has expired and
    /// keeps the rest in order.
    pub fn reap_expired(&mut self)
        requires
            old(self).wf(),
        ensures
            final(self).wf(),
            final(self).sprite_index == old(self).sprite_index,
            final(self).particles@ == survivors(old(self).particles@),
    {
        let n = self.particles.len();
        let mut kept: Vec<Particle> = Vec::new();
        let mut i: usize = 0;
        while i < n
            invariant
                n == self.particles@.len(),
                self.particles@ == old(self).particles@,
                i <= n,
                all_wf(self.particles@),
                all_wf(kept@),
                kept@ == survivors(self.particles@.take(i as int)),
            decreases n - i,
        {
            let p = self.particles[i];
            proof {
                assert(self.particles@.take(i + 1).drop_last() =~= self.particles@.take(i as int));
            }
            if !p.timer.expired() {
                kept.push(p);
            }
            i = i + 1;
        }
        assert(self.particles@.take(n as int) =~= self.particles@);
        self.particles = kept;
    }

    /// One frame with a given draw: spawn, update, accumulate, reap, in that
    /// order, so the update reads each timer before it advances.
    pub fn frame_with_draw(&mut self, dt: u64, vp: Option<Viewport>, d: &SpawnDraw)
        requires
            old(self).wf(),
            draw_fits(*d, vp),
        ensures
            final(self).wf(),
            final(self).sprite_index == old(self).sprite_index,
            final(self).particles@ == frame_spec(old(self).particles@, dt, vp, *d, old(self).sprite_index),
    {
        self.spawn_from_draw(dt, vp, d);
        self.update_particles(dt);
        self.accumulate_timers(dt);
        self.reap_expired();
    }

    /// One frame: draws the spawn parameters when a viewport is known, then
    /// runs the four passes in order.
    pub fn frame(&mut self, dt: u64, vp: Option<Viewport>)
        requires
            old(self).wf(),
        ensures
            final(self).wf(),
            final(self).sprite_index == old(self).sprite_index,
            exists|d: SpawnDraw|
                draw_fits(d, vp) && final(self).particles@ == frame_spec(
                    old(self).particles@,
                    dt,
                    vp,
                    d,
                    old(self).sprite_index,
                ),
    {
        let d = match vp {
            Some(v) => draw_spawn(v),
            None => SpawnDraw { roll: 0, heading: 0, speed: 0, peak_alpha: 0, size: 0, x: 0, y: 0 },
        };
        self.frame_with_draw(dt, vp, &d);
        assert(draw_fits(d, vp));
    }
}

/// The collection read in the order `order` gives: position `i` holds the
/// particle at index `order[i]`.
pub open spec fn reordered(s: Seq<Particle>, order: Seq<int>) -> Seq<Particle> {
    Seq::new(order.len(), |i: int| s[order[i]])
}

/// Updating never lets one particle affect another: running the update pass
/// over the particles in any order (or any selection of them) gives each
/// particle the same result as running it over the collection as it stands.
pub proof fn lemma_update_order_independent(s: Seq<Particle>, order: Seq<int>, dt: u64)
    requires
        forall|i: int| 0 <= i < order.len() ==> 0 <= #[trigger] order[i] < s.len(),
    ensures
        updated(reordered(s, order), dt) == reordered(updated(s, dt), order),
{
    assert(updated(reordered(s, order), dt) =~= reordered(updated(s, dt), order));
}

/// `k` frames with no viewport, so that nothing spawns.
pub open spec fn quiet_frames(s: Seq<Particle>, dt: u64, k: nat) -> Seq<Particle>
    decreases k,
{
    if k == 0 {
        s
    } else {
        survivors(aged(updated(quiet_frames(s, dt, (k - 1) as nat), dt), dt))
    }
}

/// Lifecycle of a particle: with a steady frame time `dt`, a freshly spawned
/// particle is still live after `k` frames exactly when `k * dt` is below its
/// lifetime, with `k * dt` elapsed, and is gone for good once it has
/// expired. Its first update leaves it fully transparent. A frame without a
/// viewport is such a quiet frame.
pub proof fn lemma_lifecycle(p: Particle, dt: u64, k: nat)
    requires
        p.wf(),
        p.timer.elapsed == 0,
        dt > 0,
    ensures
        quiet_frames(seq![p], dt, k).len() == if k * dt < p.timer.lifetime { 1int } else { 0int },
        k * dt < p.timer.lifetime ==> quiet_frames(seq![p], dt, k)[0].timer
            == (Timer { elapsed: (k * dt) as u64, lifetime: p.timer.lifetime }),
        advanced(p, dt).alpha == 0,
        forall|d: SpawnDraw, sprite_index: usize|
            #[trigger] frame_spec(seq![p], dt, None, d, sprite_index) == quiet_frames(seq![p], dt, 1),
    decreases k,
{
    let l = p.timer.lifetime;
    assert(p.timer.progress_spec() == 0);
    assert(envelope_spec(0, p.peak_alpha as int) == 0) by (nonlinear_arith);
    if k > 0 {
        let k1 = (k - 1) as nat;
        lemma_lifecycle(p, dt, k1);
        assert(k * dt == k1 * dt + dt) by (nonlinear_arith)
            requires
                k == k1 + 1,
        ;
        let r = quiet_frames(seq![p], dt, k1);
        if k1 * dt < l {
            let q = r[0];
            let a = aged_one(advanced(q, dt), dt);
            assert(updated(r, dt) =~= seq![advanced(q, dt)]);
            assert(aged(updated(r, dt), dt) =~= seq![a]);
            assert(seq![a].drop_last() =~= Seq::<Particle>::empty());
            assert(survivors(Seq::<Particle>::empty()) == Seq::<Particle>::empty());
            assert(seq![a].last() == a);
            assert(Seq::<Particle>::empty().push(a) =~= seq![a]);
            assert(q.timer.elapsed == k1 * dt);
            assert(a.timer.elapsed == accumulated_elapsed(q.timer.elapsed, l, dt));
            assert(quiet_frames(seq![p], dt, k) == survivors(seq![a]));
        } else {
            assert(updated(r, dt) =~= Seq::<Particle>::empty());
            assert(aged(updated(r, dt), dt) =~= Seq::<Particle>::empty());
        }
    }
}

} // verus!
