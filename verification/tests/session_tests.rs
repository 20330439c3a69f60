use combat_core::data::{AmmoType, WeaponType};
use combat_core::geom::Vec3Milli;
use combat_core::input::InputState;
use combat_core::inventory::{InventoryItem, StackEntry, StackKind, WeaponSlot};
use combat_core::projectile::OverlapPair;
use combat_core::session::{projectile_velocity, Session};

#[test]
fn spawned_projectile_fizzles_once_beyond_its_range() {
    // a weapon with projectile speed two hundred fires from the world
    // origin toward positive z; the physics collaborator then reports
    // the projectile twenty-five and a hundredth units out with no
    // collisions: one fizzle event, one despawn, and nothing more on a
    // later step
    let mut s = Session::new();
    assert!(s.inventory.add_item(InventoryItem::Weapon(WeaponType::Pistol, 10)));
    let origin = Vec3Milli::zero();
    let dir = Vec3Milli::new(0, 0, 1000);
    assert!(s.handle_firing(true, 250, origin, dir));
    let requests = s.spawn_projectiles();
    assert_eq!(requests.len(), 1);
    let id = requests[0].id;
    assert_eq!(requests[0].origin, origin);
    assert_eq!(requests[0].velocity, Vec3Milli::new(0, 0, 200_000));
    assert_eq!(s.projectiles.len(), 1);
    assert_eq!(s.projectiles[0].projectile.max_distance, 25_000);

    let pairs: Vec<OverlapPair> = Vec::new();
    let positions = vec![(id, Vec3Milli::new(0, 0, 25_010))];
    s.step_projectiles(&pairs, &positions);
    assert_eq!(s.fizzle_events.len(), 1);
    assert_eq!(s.fizzle_events[0].projectile, id);
    assert!(s.collision_events.is_empty());
    assert!(!s.projectiles[0].alive);

    // the entity is despawned exactly once: a later step with the same
    // report raises nothing
    s.end_tick();
    s.step_projectiles(&pairs, &positions);
    assert!(s.fizzle_events.is_empty());
    assert!(s.collision_events.is_empty());
}

#[test]
fn collision_takes_precedence_over_expiry_in_the_same_tick() {
    let mut s = Session::new();
    assert!(s.inventory.add_item(InventoryItem::Weapon(WeaponType::Pistol, 10)));
    assert!(s.handle_firing(true, 250, Vec3Milli::zero(), Vec3Milli::new(0, 0, 1000)));
    let requests = s.spawn_projectiles();
    let id = requests[0].id;

    // the projectile both overlaps a wall and sits beyond its range
    let wall = 9999u64;
    let pairs = vec![OverlapPair { a: id, b: wall }];
    let positions = vec![(id, Vec3Milli::new(0, 0, 30_000))];
    s.step_projectiles(&pairs, &positions);
    assert_eq!(s.collision_events.len(), 1);
    assert_eq!(s.collision_events[0].projectile, id);
    assert_eq!(s.collision_events[0].target, wall);
    assert!(s.fizzle_events.is_empty());
    assert!(!s.projectiles[0].alive);
}

#[test]
fn projectile_owner_overlap_raises_no_event() {
    // the projectile spawns inside its owner; the overlap against the
    // owner is excluded and the projectile survives
    let mut s = Session::new();
    assert!(s.inventory.add_item(InventoryItem::Weapon(WeaponType::Pistol, 10)));
    assert!(s.handle_firing(true, 250, Vec3Milli::zero(), Vec3Milli::new(0, 0, 1000)));
    let requests = s.spawn_projectiles();
    let id = requests[0].id;

    let pairs = vec![OverlapPair { a: id, b: s.player_id }];
    let positions = vec![(id, Vec3Milli::zero())];
    s.step_projectiles(&pairs, &positions);
    assert!(s.collision_events.is_empty());
    assert!(s.fizzle_events.is_empty());
    assert!(s.projectiles[0].alive);
}

#[test]
fn firing_consumes_ammo_through_the_session() {
    let mut s = Session::new();
    assert!(s.inventory.add_item(InventoryItem::Weapon(WeaponType::Pistol, 2)));
    assert!(s.handle_firing(true, 250, Vec3Milli::zero(), Vec3Milli::new(0, 0, 1000)));
    // still cooling down
    assert!(!s.handle_firing(true, 300, Vec3Milli::zero(), Vec3Milli::new(0, 0, 1000)));
    assert!(s.handle_firing(true, 500, Vec3Milli::zero(), Vec3Milli::new(0, 0, 1000)));
    // magazine empty
    assert!(!s.handle_firing(true, 10_000, Vec3Milli::zero(), Vec3Milli::new(0, 0, 1000)));
    // fire intent not held
    assert!(!s.handle_firing(false, 20_000, Vec3Milli::zero(), Vec3Milli::new(0, 0, 1000)));
    assert_eq!(s.fire_events.len(), 2);
    assert_eq!(s.inventory.get_selected_weapon_item().unwrap().ammo_count, 0);
}

#[test]
fn pickup_removes_the_world_item_exactly_once() {
    // a player overlapping a ground-loot volume interacts: the world
    // entity is removed and the inventory reflects the item exactly
    // once; interacting again without a new overlap has no effect
    let mut s = Session::new();
    let loot_id = s.place_ground_loot(InventoryItem::Ammo(AmmoType::Light, 20));
    let overlaps = vec![loot_id];
    let picked = s.handle_interact_input(true, &overlaps);
    assert_eq!(picked.expect("pickup must succeed").target, loot_id);
    assert_eq!(s.inventory.get_items().len(), 1);
    assert_eq!(
        s.inventory.get_items()[0],
        StackEntry { kind: StackKind::Ammo(AmmoType::Light), count: 20 },
    );
    assert!(!s.ground_loot[0].alive);

    // the stale overlap no longer names a live interactable
    let again = s.handle_interact_input(true, &overlaps);
    assert!(again.is_none());
    assert_eq!(s.inventory.get_items().len(), 1);
}

#[test]
fn pickup_without_interact_intent_does_nothing() {
    let mut s = Session::new();
    let loot_id = s.place_ground_loot(InventoryItem::Throwable);
    let overlaps = vec![loot_id];
    assert!(s.handle_interact_input(false, &overlaps).is_none());
    assert!(s.ground_loot[0].alive);
    assert!(s.inventory.get_items().is_empty());
}

#[test]
fn failed_pickup_leaves_the_world_item_intact() {
    // the light-ammunition stack already sits at its cap of fifty, so
    // the pickup is rejected and the world item stays
    let mut s = Session::new();
    assert!(s.inventory.add_item(InventoryItem::Ammo(AmmoType::Light, 50)));
    let loot_id = s.place_ground_loot(InventoryItem::Ammo(AmmoType::Light, 20));
    let overlaps = vec![loot_id];
    assert!(s.handle_interact_input(true, &overlaps).is_none());
    assert!(s.ground_loot[0].alive);
    assert_eq!(s.inventory.get_items()[0].count, 50);
}

#[test]
fn pickup_takes_the_first_live_interactable_in_overlap_order() {
    let mut s = Session::new();
    let first = s.place_ground_loot(InventoryItem::Throwable);
    let second = s.place_ground_loot(InventoryItem::Consumable);
    let overlaps = vec![77u64, second, first];
    let ev = s.handle_interact_input(true, &overlaps).expect("pickup must succeed");
    assert_eq!(ev.target, second);
    assert_eq!(ev.target_type, combat_core::interactables::InteractableType::GroundLoot);
    assert!(s.ground_loot[0].alive);
    assert!(!s.ground_loot[1].alive);
    assert_eq!(
        s.inventory.get_items()[0],
        StackEntry { kind: StackKind::Consumable, count: 1 },
    );
}

#[test]
fn toggle_debounce_applies_after_its_delay() {
    let mut s = Session::new();
    assert!(s.inventory.add_item(InventoryItem::Weapon(WeaponType::Pistol, 10)));
    assert_eq!(s.inventory.selected_weapon, WeaponSlot::Primary);

    let mut input = InputState::neutral();
    input.toggle_weapon = true;
    s.handle_weapon_select_input(&input);
    assert!(s.player.toggle_select_timer.running);

    // halfway through the debounce nothing has happened yet, and new
    // requests are ignored while it runs
    s.update_player(200);
    assert_eq!(s.inventory.selected_weapon, WeaponSlot::Primary);
    s.handle_weapon_select_input(&input);
    assert_eq!(s.player.toggle_select_timer.remaining, 300);

    s.update_player(300);
    assert_eq!(s.inventory.selected_weapon, WeaponSlot::Secondary);
    assert!(!s.player.toggle_select_timer.running);
}

#[test]
fn explicit_select_wins_over_toggle_and_needs_a_weapon() {
    let mut s = Session::new();
    let mut input = InputState::neutral();
    input.toggle_weapon = true;
    input.select_weapon_slot = Some(WeaponSlot::Secondary);

    // without a weapon the request is ignored
    s.handle_weapon_select_input(&input);
    assert!(!s.player.toggle_select_timer.running);
    assert!(!s.player.weapon_select_timer.running);

    assert!(s.inventory.add_item(InventoryItem::Weapon(WeaponType::Pistol, 10)));
    s.handle_weapon_select_input(&input);
    assert!(!s.player.toggle_select_timer.running);
    assert!(s.player.weapon_select_timer.running);
    assert_eq!(s.player.weapon_select_slot, WeaponSlot::Secondary);

    s.update_player(500);
    assert_eq!(s.inventory.selected_weapon, WeaponSlot::Secondary);
}

#[test]
fn end_tick_drops_unconsumed_events() {
    let mut s = Session::new();
    assert!(s.inventory.add_item(InventoryItem::Weapon(WeaponType::Pistol, 10)));
    assert!(s.handle_firing(true, 250, Vec3Milli::zero(), Vec3Milli::new(0, 0, 1000)));
    assert_eq!(s.fire_events.len(), 1);
    s.end_tick();
    assert!(s.fire_events.is_empty());
    assert!(s.collision_events.is_empty());
    assert!(s.fizzle_events.is_empty());
}

#[test]
fn intent_clears_to_neutral() {
    let mut input = InputState::neutral();
    input.firing = true;
    input.interact = true;
    input.toggle_weapon = true;
    input.select_weapon_slot = Some(WeaponSlot::Secondary);
    input.clear();
    assert!(!input.firing);
    assert!(!input.interact);
    assert!(!input.toggle_weapon);
    assert!(input.select_weapon_slot.is_none());
    assert_eq!(input.primary.x, 0);
    assert_eq!(input.primary.y, 0);
}

#[test]
fn projectile_velocity_scales_speed_by_direction() {
    let v = projectile_velocity(200, Vec3Milli::new(0, 0, 1000));
    assert_eq!(v, Vec3Milli::new(0, 0, 200_000));
    let w = projectile_velocity(200, Vec3Milli::new(-1000, 0, 500));
    assert_eq!(w, Vec3Milli::new(-200_000, 0, 100_000));
}

#[test]
fn direct_bullet_spawn_carries_speed_and_range() {
    let mut s = Session::new();
    let req = s.spawn_bullet(s.player_id, Vec3Milli::new(0, 1500, 0), Vec3Milli::new(0, 0, 1000), 200, 25_000);
    assert_eq!(req.origin, Vec3Milli::new(0, 1500, 0));
    assert_eq!(req.velocity, Vec3Milli::new(0, 0, 200_000));
    assert_eq!(s.projectiles.len(), 1);
    assert_eq!(s.projectiles[0].id, req.id);
    assert_eq!(s.projectiles[0].projectile.owner, s.player_id);
    assert_eq!(s.projectiles[0].projectile.max_distance, 25_000);
    assert!(s.projectiles[0].alive);
}

#[test]
fn queued_fire_events_spawn_in_order_with_consecutive_ids() {
    let mut s = Session::new();
    assert!(s.inventory.add_item(InventoryItem::Weapon(WeaponType::Pistol, 10)));
    assert!(s.handle_firing(true, 250, Vec3Milli::zero(), Vec3Milli::new(0, 0, 1000)));
    assert!(s.handle_firing(true, 500, Vec3Milli::zero(), Vec3Milli::new(1000, 0, 0)));
    assert_eq!(s.fire_events.len(), 2);
    let requests = s.spawn_projectiles();
    assert!(s.fire_events.is_empty());
    assert_eq!(requests.len(), 2);
    assert_eq!(requests[1].id, requests[0].id + 1);
    assert_eq!(requests[0].velocity, Vec3Milli::new(0, 0, 200_000));
    assert_eq!(requests[1].velocity, Vec3Milli::new(200_000, 0, 0));
    assert_eq!(s.projectiles.len(), 2);
    assert!(s.projectiles[0].alive && s.projectiles[1].alive);
}

#[test]
fn two_projectiles_striking_each_other_both_despawn_once() {
    let mut s = Session::new();
    let a = s.spawn_bullet(s.player_id, Vec3Milli::zero(), Vec3Milli::new(0, 0, 1000), 200, 25_000);
    let b = s.spawn_bullet(s.player_id, Vec3Milli::zero(), Vec3Milli::new(0, 0, -1000), 200, 25_000);
    let pairs = vec![OverlapPair { a: a.id, b: b.id }];
    let positions: Vec<(u64, Vec3Milli)> = Vec::new();
    s.step_projectiles(&pairs, &positions);
    assert_eq!(s.collision_events.len(), 2);
    assert_eq!(s.collision_events[0].projectile, a.id);
    assert_eq!(s.collision_events[0].target, b.id);
    assert_eq!(s.collision_events[1].projectile, b.id);
    assert_eq!(s.collision_events[1].target, a.id);
    assert!(!s.projectiles[0].alive && !s.projectiles[1].alive);
}
