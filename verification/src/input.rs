//! The normalized per-tick intent record the input collaborator hands
//! in: movement and look vectors, the held fire flag, and the discrete,
//! edge-triggered actions. No intent persists beyond its issuing tick.

use vstd::prelude::*;

use crate::geom::Vec2Milli;
use crate::inventory::WeaponSlot;

verus! {

/// One tick's normalized player intent.
#[derive(Debug, Copy, Clone)]
pub struct InputState {
    /// Movement intent (unit-scale, thousandths).
    pub primary: Vec2Milli,
    /// Look / cursor intent (unit-scale, thousandths).
    pub secondary: Vec2Milli,
    /// Fire is held this tick (level-triggered).
    pub firing: bool,
    /// Interact was pressed this tick (edge-triggered).
    pub interact: bool,
    /// Weapon toggle was pressed this tick (edge-triggered).
    pub toggle_weapon: bool,
    /// Explicit slot selection this tick, if any.
    pub select_weapon_slot: Option<WeaponSlot>,
}

impl InputState {
    /// The record with no intent at all.
    pub open spec fn spec_neutral() -> InputState {
        InputState {
            primary: Vec2Milli { x: 0, y: 0 },
            secondary: Vec2Milli { x: 0, y: 0 },
            firing: false,
            interact: false,
            toggle_weapon: false,
            select_weapon_slot: None,
        }
    }

    pub fn neutral() -> (s: InputState)
        ensures
            s == InputState::spec_neutral(),
    {
        InputState {
            primary: Vec2Milli::zero(),
            secondary: Vec2Milli::zero(),
            firing: false,
            interact: false,
            toggle_weapon: false,
            select_weapon_slot: None,
        }
    }

    /// Clear the record to neutral, as happens at the end of every tick.
    pub fn clear(&mut self)
        ensures
            *final(self) == InputState::spec_neutral(),
    {
        *self = InputState::neutral();
    }
}

} // verus!
