use combat_core::data::{weapon_data, WeaponFireMode, WeaponType};
use combat_core::geom::Vec3Milli;
use combat_core::weapon::{FireWeaponEvent, Weapon};

#[test]
fn weapon_table_pistol_entry() {
    let d = weapon_data(WeaponType::Pistol);
    assert_eq!(d.name, "Pistol");
    assert_eq!(d.magazine_size, 10);
    assert_eq!(d.fire_mode, WeaponFireMode::SemiAuto);
    assert_eq!(d.fire_interval, 250);
    assert_eq!(d.projectile_speed, 200);
    assert_eq!(d.damage, 10);
}

#[test]
fn fire_never_succeeds_during_cooldown() {
    let d = weapon_data(WeaponType::Pistol);
    let mut w = Weapon::new(WeaponType::Pistol, 10);
    let mut events: Vec<FireWeaponEvent> = Vec::new();
    let origin = Vec3Milli::zero();
    let dir = Vec3Milli::new(0, 0, 1000);
    assert!(w.fire(&d, 250, 0, origin, dir, &mut events));
    // now - last_fire_ts < fire_interval: rejected, nothing mutated
    assert!(!w.can_fire(&d, 499));
    assert!(!w.fire(&d, 499, 0, origin, dir, &mut events));
    assert_eq!(w.ammo_count, 9);
    assert_eq!(w.last_fire_ts, 250);
    assert_eq!(events.len(), 1);
    // exactly at the interval it fires again
    assert!(w.can_fire(&d, 500));
}

#[test]
fn fire_never_succeeds_with_empty_magazine() {
    let d = weapon_data(WeaponType::Pistol);
    let mut w = Weapon::new(WeaponType::Pistol, 0);
    let mut events: Vec<FireWeaponEvent> = Vec::new();
    assert!(!w.can_fire(&d, 1_000_000));
    assert!(!w.fire(&d, 1_000_000, 0, Vec3Milli::zero(), Vec3Milli::new(0, 0, 1000), &mut events));
    assert_eq!(w.ammo_count, 0);
    assert_eq!(w.last_fire_ts, 0);
    assert!(events.is_empty());
}

#[test]
fn successful_fire_consumes_one_round_and_stamps_time() {
    let d = weapon_data(WeaponType::Pistol);
    let mut w = Weapon::new(WeaponType::Pistol, 3);
    let mut events: Vec<FireWeaponEvent> = Vec::new();
    let origin = Vec3Milli::new(1000, 1500, -2000);
    let dir = Vec3Milli::new(0, 0, -1000);
    assert!(w.fire(&d, 777, 42, origin, dir, &mut events));
    assert_eq!(w.ammo_count, 2);
    assert_eq!(w.last_fire_ts, 777);
    assert_eq!(events.len(), 1);
    assert_eq!(events[0].owner, 42);
    assert_eq!(events[0].weapon_type, WeaponType::Pistol);
    assert_eq!(events[0].origin, origin);
    assert_eq!(events[0].direction, dir);
}

#[test]
fn magazine_of_ten_empties_on_the_tenth_shot() {
    // fire ten times at intervals of exactly the fire interval: all ten
    // succeed and the magazine is empty; an eleventh attempt fails at
    // any timing
    let d = weapon_data(WeaponType::Pistol);
    let mut w = Weapon::new(WeaponType::Pistol, 10);
    let mut events: Vec<FireWeaponEvent> = Vec::new();
    let origin = Vec3Milli::zero();
    let dir = Vec3Milli::new(0, 0, 1000);
    for shot in 1..=10u64 {
        let now = shot * 250;
        assert!(w.fire(&d, now, 0, origin, dir, &mut events), "shot {shot} must succeed");
    }
    assert_eq!(w.ammo_count, 0);
    assert_eq!(events.len(), 10);
    assert!(!w.fire(&d, u64::MAX, 0, origin, dir, &mut events));
    assert_eq!(events.len(), 10);
}
