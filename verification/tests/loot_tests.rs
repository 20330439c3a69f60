use combat_core::data::{AmmoType, WeaponType};
use combat_core::inventory::InventoryItem;
use combat_core::layers::{can_collide, GameCollisionLayers};
use combat_core::rng::RandomSource;
use combat_core::session::Session;

#[test]
fn random_loot_is_always_consistent_with_the_tables() {
    // whatever the generator picks: weapons drop with a full magazine,
    // ammunition in its loot stack size
    for seed in 0..64u64 {
        let mut rng = RandomSource::from_seed(seed);
        for _ in 0..8 {
            match InventoryItem::random_loot(&mut rng) {
                InventoryItem::Weapon(t, n) => {
                    assert_eq!(t, WeaponType::Pistol);
                    assert_eq!(n, 10);
                },
                InventoryItem::Ammo(t, n) => {
                    assert_eq!(t, AmmoType::Light);
                    assert_eq!(n, 20);
                },
                InventoryItem::Throwable | InventoryItem::Consumable => {},
            }
        }
    }
}

#[test]
fn random_loot_draws_more_than_one_kind() {
    // a working uniform draw over four kinds produces at least two
    // distinct kinds across many seeds
    let mut seen_weapon = false;
    let mut seen_ammo = false;
    let mut seen_throwable = false;
    let mut seen_consumable = false;
    for seed in 0..200u64 {
        let mut rng = RandomSource::from_seed(seed);
        match InventoryItem::random_loot(&mut rng) {
            InventoryItem::Weapon(_, _) => seen_weapon = true,
            InventoryItem::Ammo(_, _) => seen_ammo = true,
            InventoryItem::Throwable => seen_throwable = true,
            InventoryItem::Consumable => seen_consumable = true,
        }
    }
    let kinds = [seen_weapon, seen_ammo, seen_throwable, seen_consumable];
    assert!(kinds.iter().filter(|s| **s).count() >= 2);
}

#[test]
fn random_loot_is_deterministic_per_seed() {
    let mut a = RandomSource::from_seed(7);
    let mut b = RandomSource::from_seed(7);
    for _ in 0..16 {
        assert_eq!(InventoryItem::random_loot(&mut a), InventoryItem::random_loot(&mut b));
    }
}

#[test]
fn spawned_ground_loot_gets_a_fresh_live_entry() {
    let mut s = Session::new();
    let mut rng = RandomSource::from_seed(3);
    let first = s.spawn_ground_loot(&mut rng);
    let second = s.spawn_ground_loot(&mut rng);
    assert_ne!(first, second);
    assert_eq!(s.ground_loot.len(), 2);
    assert!(s.ground_loot[0].alive);
    assert!(s.ground_loot[1].alive);
    assert_eq!(s.ground_loot[0].id, first);
    assert_eq!(s.ground_loot[1].id, second);
}

#[test]
fn collision_layer_masks_follow_the_interaction_table() {
    let projectile = GameCollisionLayers::Projectile;
    let world = GameCollisionLayers::World;
    let player = GameCollisionLayers::Player;
    let loot = GameCollisionLayers::Loot;
    let interactable = GameCollisionLayers::Interactable;
    let untagged = GameCollisionLayers::Default;
    assert!(can_collide(projectile, world));
    assert!(can_collide(projectile, player));
    assert!(can_collide(projectile, untagged));
    assert!(!can_collide(projectile, projectile));
    assert!(!can_collide(projectile, loot));
    assert!(!can_collide(projectile, interactable));
    assert!(can_collide(interactable, player));
    assert!(!can_collide(interactable, world));
    assert!(can_collide(loot, world));
    // symmetry on a few pairs
    assert_eq!(can_collide(world, projectile), can_collide(projectile, world));
    assert_eq!(can_collide(player, interactable), can_collide(interactable, player));
}
