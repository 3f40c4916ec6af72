use engine::particle::{envelope, Particle, Tint, PARTICLE_LIFETIME};
use engine::simulation::Simulation;
use engine::spawn::{draw_spawn, spawn_chance_met, SpawnDraw, Viewport};
use engine::timer::{Timer, ONE};

const DT: u64 = 100_000;

fn full_hd() -> Viewport {
    Viewport { width: 1920, height: 1080 }
}

fn quarter_hd() -> Viewport {
    Viewport { width: 960, height: 540 }
}

fn draw(roll: u64) -> SpawnDraw {
    SpawnDraw {
        roll,
        heading: 250_000,
        speed: 32_000,
        peak_alpha: 500_000,
        size: 50_000,
        x: 960_000_000_000,
        y: 0,
    }
}

fn particle(speed: u64, peak_alpha: u64) -> Particle {
    Particle {
        origin_x: 0,
        origin_y: 0,
        heading: 0,
        speed,
        travel: 0,
        peak_alpha,
        size: 50_000,
        sprite_index: 1,
        tint: Tint { r: 0x25, g: 0x12, b: 0x40 },
        alpha: 0,
        timer: Timer::new(PARTICLE_LIFETIME),
    }
}

#[test]
fn timer_starts_empty() {
    let t = Timer::new(2_400_000);
    assert_eq!(t.elapsed, 0);
    assert_eq!(t.lifetime, 2_400_000);
    assert_eq!(t.progress(), 0);
    assert!(!t.expired());
}

#[test]
fn timer_accumulate_is_monotone_and_clamped() {
    let mut t = Timer::new(1_000);
    let mut last = 0;
    for dt in [0u64, 300, 0, 250, 400, 100, 5_000, 0, u64::MAX] {
        t.accumulate(dt);
        assert!(t.elapsed >= last);
        assert!(t.elapsed <= t.lifetime);
        last = t.elapsed;
    }
    assert_eq!(t.elapsed, 1_000);
    assert!(t.expired());
}

#[test]
fn timer_accumulate_sums_below_lifetime() {
    let mut t = Timer::new(1_000);
    t.accumulate(300);
    t.accumulate(250);
    assert_eq!(t.elapsed, 550);
    assert!(!t.expired());
    t.accumulate(450);
    assert_eq!(t.elapsed, 1_000);
    assert!(t.expired());
}

#[test]
fn progress_stays_within_bounds() {
    let mut t = Timer::new(2_400_000);
    assert_eq!(t.progress(), 0);
    t.accumulate(600_000);
    assert_eq!(t.progress(), 250_000);
    t.accumulate(600_000);
    assert_eq!(t.progress(), 500_000);
    t.accumulate(10_000_000);
    assert_eq!(t.progress(), ONE);
}

#[test]
fn progress_rounds_down() {
    let mut t = Timer::new(3);
    t.accumulate(1);
    assert_eq!(t.progress(), 333_333);
}

#[test]
fn alpha_envelope_at_quarters() {
    let peak = 500_000;
    assert_eq!(envelope(0, peak), 0);
    assert_eq!(envelope(250_000, peak), 250_000);
    assert_eq!(envelope(500_000, peak), 500_000);
    assert_eq!(envelope(750_000, peak), 250_000);
    assert_eq!(envelope(ONE, peak), 0);
}

#[test]
fn spawn_certain_on_short_frames_at_full_hd() {
    assert!(spawn_chance_met(0, DT, full_hd()));
    assert!(spawn_chance_met(ONE - 1, DT, full_hd()));
}

#[test]
fn spawn_threshold_on_long_frames() {
    // roll * 5 s <= 0.4 at the reference size: rolls up to 0.08 spawn.
    assert!(spawn_chance_met(80_000, 5_000_000, full_hd()));
    assert!(!spawn_chance_met(80_001, 5_000_000, full_hd()));
    // A quarter of the area: rolls up to 0.02 spawn.
    assert!(spawn_chance_met(20_000, 5_000_000, quarter_hd()));
    assert!(!spawn_chance_met(20_001, 5_000_000, quarter_hd()));
}

#[test]
fn spawn_quarter_area_matches_four_times_the_frame() {
    for roll in [0u64, 1_000, 20_000, 20_001, 80_000, 500_000, 999_999] {
        for dt in [16_667u64, 100_000, 2_500_000, 5_000_000, 20_000_000] {
            assert_eq!(
                spawn_chance_met(roll, dt, quarter_hd()),
                spawn_chance_met(roll, 4 * dt, full_hd())
            );
        }
    }
}

#[test]
fn empty_viewport_spawns_only_on_zero_roll() {
    let vp = Viewport { width: 0, height: 1080 };
    assert!(spawn_chance_met(0, DT, vp));
    assert!(!spawn_chance_met(1, DT, vp));
}

#[test]
fn drawn_values_lie_in_their_ranges() {
    let vp = Viewport { width: 3, height: 2 };
    for _ in 0..200 {
        let d = draw_spawn(vp);
        assert!(d.roll < ONE);
        assert!(d.heading < 1_000_000);
        assert!((16_000..64_000).contains(&d.speed));
        assert!((300_000..700_000).contains(&d.peak_alpha));
        assert!((24_000..84_000).contains(&d.size));
        assert!(d.x < 3_000_000_000);
        assert!(d.y < 2_000_000_000);
    }
    let empty = draw_spawn(Viewport { width: 0, height: 0 });
    assert_eq!(empty.x, 0);
    assert_eq!(empty.y, 0);
}

#[test]
fn spawned_particle_is_centred_and_fresh() {
    let vp = full_hd();
    let p = Particle::spawned(&draw(0), vp, 7);
    assert_eq!(p.origin_x, 0);
    assert_eq!(p.origin_y, -540_000_000_000);
    assert_eq!(p.heading, 250_000);
    assert_eq!(p.speed, 32_000);
    assert_eq!(p.travel, 0);
    assert_eq!(p.peak_alpha, 500_000);
    assert_eq!(p.size, 50_000);
    assert_eq!(p.sprite_index, 7);
    assert_eq!(p.tint, Tint { r: 0x25, g: 0x12, b: 0x40 });
    assert_eq!(p.alpha, 0);
    assert_eq!(p.timer, Timer::new(2_400_000));
}

#[test]
fn no_viewport_no_spawn() {
    let mut sim = Simulation::new(0);
    assert!(!sim.spawn_from_draw(DT, None, &draw(0)));
    assert!(!sim.spawn_particles(DT, None));
    for _ in 0..10 {
        sim.frame(DT, None);
    }
    assert!(sim.particles.is_empty());
}

#[test]
fn spawn_from_draw_follows_the_roll() {
    let mut sim = Simulation::new(3);
    assert!(!sim.spawn_from_draw(5_000_000, Some(full_hd()), &draw(80_001)));
    assert_eq!(sim.particles.len(), 0);
    assert!(sim.spawn_from_draw(5_000_000, Some(full_hd()), &draw(80_000)));
    assert_eq!(sim.particles.len(), 1);
    assert_eq!(sim.particles[0], Particle::spawned(&draw(80_000), full_hd(), 3));
}

#[test]
fn random_spawn_on_short_frame_always_adds_one() {
    let mut sim = Simulation::new(0);
    assert!(sim.spawn_particles(DT, Some(full_hd())));
    assert_eq!(sim.particles.len(), 1);
    sim.frame(DT, Some(full_hd()));
    assert_eq!(sim.particles.len(), 2);
}

#[test]
fn lifecycle_spans_twenty_four_frames() {
    let mut sim = Simulation::new(0);
    sim.frame_with_draw(DT, Some(full_hd()), &draw(0));
    assert_eq!(sim.particles.len(), 1);
    assert_eq!(sim.particles[0].alpha, 0);
    for _ in 1..23 {
        sim.frame_with_draw(DT, None, &draw(0));
        assert_eq!(sim.particles.len(), 1);
    }
    assert_eq!(sim.particles[0].timer.elapsed, 2_300_000);
    sim.frame_with_draw(DT, None, &draw(0));
    assert!(sim.particles.is_empty());
    for _ in 0..5 {
        sim.frame_with_draw(DT, None, &draw(0));
        assert!(sim.particles.is_empty());
    }
}

#[test]
fn update_order_does_not_matter() {
    let mut a = particle(10_000, 600_000);
    a.timer.accumulate(600_000);
    let b = particle(50_000, 300_000);
    let mut forward = Simulation::new(0);
    forward.particles = vec![a, b];
    let mut backward = Simulation::new(0);
    backward.particles = vec![b, a];
    forward.update_particles(DT);
    backward.update_particles(DT);
    assert_eq!(forward.particles[0], backward.particles[1]);
    assert_eq!(forward.particles[1], backward.particles[0]);
    let mut alone = a;
    alone.advance(DT);
    assert_eq!(forward.particles[0], alone);
    assert_eq!(alone.alpha, 300_000);
    assert_eq!(alone.travel, 1_000_000_000);
}

#[test]
fn twelve_steps_reach_midlife() {
    let mut sim = Simulation::new(0);
    sim.particles.push(particle(10_000, 600_000));
    for _ in 0..12 {
        sim.update_particles(DT);
        sim.accumulate_timers(DT);
    }
    let p = sim.particles[0];
    assert_eq!(p.travel, 12_000_000_000);
    assert_eq!(p.timer.elapsed, 1_200_000);
    assert_eq!(p.timer.progress(), 500_000);
    assert_eq!(envelope(p.timer.progress(), p.peak_alpha), 600_000);
}

#[test]
fn reap_keeps_live_particles_in_order() {
    let mut sim = Simulation::new(0);
    let mut done = particle(16_000, 300_000);
    done.timer.accumulate(PARTICLE_LIFETIME);
    let live1 = particle(20_000, 300_000);
    let live2 = particle(30_000, 300_000);
    sim.particles = vec![done, live1, done, live2];
    sim.reap_expired();
    assert_eq!(sim.particles, vec![live1, live2]);
}

#[test]
fn travel_saturates() {
    let mut p = particle(63_999, 500_000);
    p.advance(u64::MAX);
    assert_eq!(p.travel, u64::MAX);
}
