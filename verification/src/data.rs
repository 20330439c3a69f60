//! Static weapon and ammunition data: the read-only tables loaded once at
//! startup and shared by reference. Times are in milliseconds, speeds in
//! world units per second.

use vstd::prelude::*;

verus! {

#[derive(Debug, Copy, Clone, PartialEq, Eq, Structural, Hash)]
pub enum AmmoType {
    Light,
}

#[derive(Debug, Copy, Clone)]
pub struct AmmoData {
    pub name: &'static str,
    /// How many rounds one ground-loot drop grants.
    pub loot_size: usize,
    /// Cap on a single carried stack of this ammunition.
    pub stack_size: usize,
}

#[derive(Debug, Copy, Clone, PartialEq, Eq, Structural, Hash)]
pub enum WeaponType {
    Pistol,
}

#[derive(Debug, Copy, Clone, PartialEq, Eq, Structural, Hash)]
pub enum WeaponFireMode {
    SemiAuto,
    Burst(u8),
    FullAuto,
}

#[derive(Debug, Copy, Clone)]
pub struct WeaponData {
    pub name: &'static str,
    pub ammo_type: AmmoType,
    pub magazine_size: usize,
    /// Declared cadence; the firing gate itself is single-shot (the
    /// caller's stream of fire intents supplies the cadence).
    pub fire_mode: WeaponFireMode,
    /// Least time between two successful shots, in milliseconds.
    pub fire_interval: u64,
    /// Muzzle speed in world units per second.
    pub projectile_speed: i64,
    pub damage: u64,
}

impl WeaponData {
    /// Bounds every table entry obeys; they keep projectile velocity
    /// arithmetic inside `i64`.
    pub open spec fn wf(self) -> bool {
        0 < self.projectile_speed <= 1_000_000
    }
}

/// The ammunition table as a total function over ammunition kinds.
pub open spec fn spec_ammo_data(t: AmmoType) -> AmmoData {
    match t {
        AmmoType::Light => AmmoData { name: "Light", loot_size: 20, stack_size: 50 },
    }
}

pub fn ammo_data(t: AmmoType) -> (d: AmmoData)
    ensures
        d == spec_ammo_data(t),
{
    match t {
        AmmoType::Light => AmmoData { name: "Light", loot_size: 20, stack_size: 50 },
    }
}

/// The weapon table as a total function over weapon kinds.
pub open spec fn spec_weapon_data(t: WeaponType) -> WeaponData {
    match t {
        WeaponType::Pistol => WeaponData {
            name: "Pistol",
            ammo_type: AmmoType::Light,
            magazine_size: 10,
            fire_mode: WeaponFireMode::SemiAuto,
            fire_interval: 250,
            projectile_speed: 200,
            damage: 10,
        },
    }
}

pub fn weapon_data(t: WeaponType) -> (d: WeaponData)
    ensures
        d == spec_weapon_data(t),
        d.wf(),
{
    match t {
        WeaponType::Pistol => WeaponData {
            name: "Pistol",
            ammo_type: AmmoType::Light,
            magazine_size: 10,
            fire_mode: WeaponFireMode::SemiAuto,
            fire_interval: 250,
            projectile_speed: 200,
            damage: 10,
        },
    }
}

/// Every weapon kind, in declaration order (the table's key set).
pub fn all_weapon_types() -> (v: Vec<WeaponType>)
    ensures
        v@ =~= seq![WeaponType::Pistol],
{
    let mut v: Vec<WeaponType> = Vec::new();
    v.push(WeaponType::Pistol);
    v
}

/// Every ammunition kind, in declaration order.
pub fn all_ammo_types() -> (v: Vec<AmmoType>)
    ensures
        v@ =~= seq![AmmoType::Light],
{
    let mut v: Vec<AmmoType> = Vec::new();
    v.push(AmmoType::Light);
    v
}

} // verus!
