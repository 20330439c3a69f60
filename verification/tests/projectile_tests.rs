use combat_core::geom::{dist_sq, Vec3Milli};
use combat_core::projectile::{
    check_projectile_despawn, filter_collisions, handle_collisions, OverlapPair, Projectile,
    ProjectileCollisionEvent, ProjectileEntry, ProjectileFizzleEvent,
};

fn entry(id: u64, owner: u64, origin: Vec3Milli, max_distance: i64) -> ProjectileEntry {
    ProjectileEntry { id, projectile: Projectile { owner, origin, max_distance }, alive: true }
}

#[test]
fn self_pairs_are_filtered_out_in_both_orientations() {
    let entries = vec![entry(5, 1, Vec3Milli::zero(), 25_000)];
    let pairs = vec![
        OverlapPair { a: 5, b: 1 },
        OverlapPair { a: 1, b: 5 },
        OverlapPair { a: 5, b: 9 },
    ];
    let kept = filter_collisions(&entries, &pairs);
    assert_eq!(kept.len(), 1);
    assert_eq!(kept[0], OverlapPair { a: 5, b: 9 });
}

#[test]
fn projectile_never_collides_with_its_own_owner() {
    // the only overlap joins the projectile with the body that fired it:
    // no event, no despawn
    let mut entries = vec![entry(5, 1, Vec3Milli::zero(), 25_000)];
    let pairs = vec![OverlapPair { a: 5, b: 1 }];
    let kept = filter_collisions(&entries, &pairs);
    let mut events: Vec<ProjectileCollisionEvent> = Vec::new();
    handle_collisions(&mut entries, &kept, &mut events);
    assert!(events.is_empty());
    assert!(entries[0].alive);
}

#[test]
fn several_overlaps_despawn_a_projectile_exactly_once() {
    let mut entries = vec![entry(5, 1, Vec3Milli::zero(), 25_000)];
    let pairs = vec![
        OverlapPair { a: 5, b: 7 },
        OverlapPair { a: 5, b: 8 },
        OverlapPair { a: 9, b: 5 },
    ];
    let mut events: Vec<ProjectileCollisionEvent> = Vec::new();
    handle_collisions(&mut entries, &pairs, &mut events);
    assert_eq!(events.len(), 1);
    assert_eq!(events[0], ProjectileCollisionEvent { projectile: 5, target: 7 });
    assert!(!entries[0].alive);

    // a second pass over the same overlaps is a no-op: the entry is dead
    let mut more: Vec<ProjectileCollisionEvent> = Vec::new();
    handle_collisions(&mut entries, &pairs, &mut more);
    assert!(more.is_empty());
    assert!(!entries[0].alive);
}

#[test]
fn expiry_fizzles_a_projectile_strictly_beyond_its_range() {
    // max distance 25 units; at 25.01 units from the origin the
    // projectile fizzles and despawns, at exactly 25 units it does not
    let mut entries = vec![
        entry(5, 1, Vec3Milli::zero(), 25_000),
        entry(6, 1, Vec3Milli::zero(), 25_000),
    ];
    let positions = vec![
        (5u64, Vec3Milli::new(0, 0, 25_010)),
        (6u64, Vec3Milli::new(0, 0, 25_000)),
    ];
    let mut events: Vec<ProjectileFizzleEvent> = Vec::new();
    check_projectile_despawn(&mut entries, &positions, &mut events);
    assert_eq!(events.len(), 1);
    assert_eq!(events[0], ProjectileFizzleEvent { projectile: 5 });
    assert!(!entries[0].alive);
    assert!(entries[1].alive);
}

#[test]
fn expiry_ignores_projectiles_without_a_reported_position() {
    let mut entries = vec![entry(5, 1, Vec3Milli::zero(), 25_000)];
    let positions: Vec<(u64, Vec3Milli)> = Vec::new();
    let mut events: Vec<ProjectileFizzleEvent> = Vec::new();
    check_projectile_despawn(&mut entries, &positions, &mut events);
    assert!(events.is_empty());
    assert!(entries[0].alive);
}

#[test]
fn expiry_measures_euclidean_distance_from_spawn_origin() {
    // 3-4-0 triangle scaled by five: twenty-five units away exactly, so
    // no fizzle; one thousandth further on the z axis tips it over
    let origin = Vec3Milli::new(1000, 0, 0);
    let mut entries = vec![entry(5, 1, origin, 25_000), entry(6, 1, origin, 25_000)];
    let positions = vec![
        (5u64, Vec3Milli::new(16_000, 20_000, 0)),
        (6u64, Vec3Milli::new(16_000, 20_000, 1_000)),
    ];
    let mut events: Vec<ProjectileFizzleEvent> = Vec::new();
    check_projectile_despawn(&mut entries, &positions, &mut events);
    assert!(entries[0].alive);
    assert!(!entries[1].alive);
    assert_eq!(events.len(), 1);
    assert_eq!(events[0].projectile, 6);
}

#[test]
fn dist_sq_is_the_exact_squared_distance() {
    assert_eq!(dist_sq(Vec3Milli::zero(), Vec3Milli::new(0, 0, 25_010)), 625_500_100);
    assert_eq!(dist_sq(Vec3Milli::new(1, 2, 3), Vec3Milli::new(1, 2, 3)), 0);
    assert_eq!(dist_sq(Vec3Milli::new(-1000, 0, 0), Vec3Milli::new(2000, 4000, 0)), 25_000_000);
    // symmetric
    assert_eq!(
        dist_sq(Vec3Milli::new(5, -7, 9), Vec3Milli::new(-2, 4, 0)),
        dist_sq(Vec3Milli::new(-2, 4, 0), Vec3Milli::new(5, -7, 9)),
    );
}
