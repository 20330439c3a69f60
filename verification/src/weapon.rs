//! The per-weapon firing gate: a single timestamp plus an ammunition
//! count decide whether a fire intent becomes a fire event. A rejected
//! fire is a silent no-op; a successful one consumes one round, records
//! the shot time and emits exactly one event.

use vstd::prelude::*;

use crate::data::{WeaponData, WeaponType};
use crate::geom::Vec3Milli;

verus! {

/// One weapon instance carried in a loadout slot. Ammunition is tracked
/// here (an unsigned count, so it can never go negative); `last_fire_ts`
/// is the time of the last successful shot in milliseconds, zero for a
/// weapon that has never fired.
#[derive(Debug, Copy, Clone, PartialEq, Eq, Structural)]
pub struct Weapon {
    pub weapon_type: WeaponType,
    pub ammo_count: usize,
    pub last_fire_ts: u64,
}

/// The one-shot signal a successful fire emits: who fired, what weapon,
/// from where and toward where. Consumed by the projectile lifecycle
/// manager within the same tick.
#[derive(Debug, Copy, Clone, PartialEq, Eq, Structural)]
pub struct FireWeaponEvent {
    pub owner: u64,
    pub weapon_type: WeaponType,
    pub origin: Vec3Milli,
    pub direction: Vec3Milli,
}

impl Weapon {
    pub fn new(weapon_type: WeaponType, ammo_count: usize) -> (w: Weapon)
        ensures
            w == (Weapon { weapon_type, ammo_count, last_fire_ts: 0u64 }),
    {
        Weapon { weapon_type, ammo_count, last_fire_ts: 0 }
    }

    /// The firing gate: at least one round left and the cooldown since
    /// the last successful shot has elapsed.
    pub open spec fn spec_can_fire(self, data: WeaponData, now: u64) -> bool {
        &&& self.ammo_count >= 1
        &&& self.last_fire_ts + data.fire_interval <= now
    }

    pub fn can_fire(&self, data: &WeaponData, now: u64) -> (r: bool)
        ensures
            r == self.spec_can_fire(*data, now),
    {
        self.ammo_count >= 1 && now >= self.last_fire_ts
            && now - self.last_fire_ts >= data.fire_interval
    }

    /// Attempt to fire at time `now`. On success: one round consumed,
    /// the shot time recorded, and exactly one fire event appended. On
    /// rejection (cooldown still running, or out of ammunition): nothing
    /// changes and no event is raised.
    pub fn fire(
        &mut self,
        data: &WeaponData,
        now: u64,
        owner: u64,
        origin: Vec3Milli,
        direction: Vec3Milli,
        events: &mut Vec<FireWeaponEvent>,
    ) -> (fired: bool)
        ensures
            fired == old(self).spec_can_fire(*data, now),
            // a shot never succeeds while the cooldown is running
            old(self).last_fire_ts + data.fire_interval > now ==> !fired,
            // a shot never succeeds with an empty magazine
            old(self).ammo_count == 0 ==> !fired,
            // a successful shot consumes exactly one round and stamps the time
            fired ==> *final(self) == (Weapon {
                weapon_type: old(self).weapon_type,
                ammo_count: (old(self).ammo_count - 1) as usize,
                last_fire_ts: now,
            }),
            fired ==> final(events)@ == old(events)@.push(FireWeaponEvent {
                owner,
                weapon_type: old(self).weapon_type,
                origin,
                direction,
            }),
            // a rejected shot mutates nothing and raises nothing
            !fired ==> *final(self) == *old(self) && final(events)@ == old(events)@,
    {
        if !self.can_fire(data, now) {
            return false;
        }

        events.push(FireWeaponEvent {
            owner,
            weapon_type: self.weapon_type,
            origin,
            direction,
        });
        self.last_fire_ts = now;
        self.ammo_count = self.ammo_count - 1;

        true
    }
}

} // verus!
