use vectorflow::particle::{seed_field, Particle};

fn particle(space: ((i32, i32), (i32, i32)), lifetime: i32, tick: i32) -> Particle {
    Particle { color: (255, 255, 255), space, lifetime, tick }
}

#[test]
fn new_particle_spawns_inside_its_space() {
    for _ in 0..500 {
        let (p, (x, y)) = Particle::new((-10, 10), (-5, 5), 200);
        assert_eq!(p.color, (255, 255, 255));
        assert_eq!(p.space, ((-10, 10), (-5, 5)));
        assert_eq!(p.tick, 0);
        assert!(0 <= p.lifetime && p.lifetime < 400);
        assert!(-5 <= x && x < 5);
        assert!(-10 <= y && y < 10);
    }
}

#[test]
fn new_particle_with_unit_lifetime_lives_zero_or_one_frame() {
    for _ in 0..100 {
        let (p, _) = Particle::new((0, 1), (0, 1), 1);
        assert!(p.lifetime == 0 || p.lifetime == 1);
    }
}

#[test]
fn single_point_space_spawns_at_that_point() {
    let (mut p, spawn) = Particle::new((7, 8), (-3, -2), 5);
    assert_eq!(spawn, (-3, 7));
    p.tick = 4;
    assert_eq!(p.respawn(), (-3, 7));
    assert_eq!(p.tick, 0);
}

#[test]
fn update_ages_and_keeps_live_particle() {
    let mut p = particle(((-10, 10), (-10, 10)), 5, 0);
    assert!(p.update((0, 0)));
    assert_eq!(p.tick, 1);
    assert_eq!(p.lifetime, 5);
}

#[test]
fn update_kills_particle_at_its_lifetime() {
    let mut p = particle(((-10, 10), (-10, 10)), 5, 4);
    assert!(!p.update((0, 0)));
    assert_eq!(p.tick, 5);
}

#[test]
fn update_bounds_are_strict() {
    let space = ((-10, 10), (-20, 20));
    assert!(!particle(space, 100, 0).update((-10, 0)));
    assert!(!particle(space, 100, 0).update((10, 0)));
    assert!(!particle(space, 100, 0).update((0, -20)));
    assert!(!particle(space, 100, 0).update((0, 20)));
    assert!(particle(space, 100, 0).update((-9, 19)));
    assert!(particle(space, 100, 0).update((9, -19)));
}

#[test]
fn update_holds_x_against_the_first_interval() {
    // x is drawn from the second interval but tested against the first
    let space = ((-1, 1), (-100, 100));
    assert!(!particle(space, 100, 0).update((50, 0)));
    assert!(particle(space, 100, 0).update((0, 50)));
}

#[test]
fn respawn_resets_tick_and_keeps_the_rest() {
    let mut p = particle(((-4, 4), (-2, 2)), 9, 7);
    p.color = (1, 2, 3);
    for _ in 0..200 {
        let (x, y) = p.respawn();
        assert_eq!(p.tick, 0);
        assert_eq!(p.lifetime, 9);
        assert_eq!(p.color, (1, 2, 3));
        assert_eq!(p.space, ((-4, 4), (-2, 2)));
        assert!(-2 <= x && x < 2);
        assert!(-4 <= y && y < 4);
    }
}

#[test]
fn frame_with_zero_lifetime_respawns_and_ends_one_frame_old() {
    let mut p = particle(((-4, 4), (-4, 4)), 0, 1);
    if !p.update((0, 0)) {
        p.respawn();
        p.update((0, 0));
    }
    assert_eq!(p.tick, 1);
    assert!(p.tick <= p.lifetime + 1);
}

#[test]
fn largest_lifetime_keeps_ticks_in_range() {
    for _ in 0..50 {
        let (p, _) = Particle::new((-1, 1), (-1, 1), i32::MAX / 2);
        assert!(p.lifetime >= 0 && p.lifetime <= i32::MAX - 2);
    }
}

#[test]
fn seeded_field_has_the_count_and_fresh_particles() {
    let field = seed_field(300, (-20, 20), (-7, 7), 50);
    assert_eq!(field.len(), 300);
    for (p, (x, y)) in field {
        assert_eq!(p.color, (255, 255, 255));
        assert_eq!(p.space, ((-20, 20), (-7, 7)));
        assert_eq!(p.tick, 0);
        assert!(0 <= p.lifetime && p.lifetime < 100);
        assert!(-7 <= x && x < 7);
        assert!(-20 <= y && y < 20);
    }
    assert!(seed_field(0, (0, 1), (0, 1), 1).is_empty());
}
