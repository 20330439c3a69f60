//! Per-player state outside the loadout itself: the two independent
//! debounce timers that gate slot-toggle and explicit slot-select
//! actions. An action is requested by starting its timer; it is applied
//! to the loadout when the timer runs out, and further requests are
//! ignored while either timer runs.

use vstd::prelude::*;

use crate::inventory::{Inventory, InventoryView, WeaponSlot};

verus! {

/// How long a slot change is debounced, in milliseconds.
pub const SELECT_DEBOUNCE_MS: u64 = 500;

/// A one-shot countdown: started with a duration, ticked with elapsed
/// milliseconds, firing exactly once when it runs out.
#[derive(Debug, Copy, Clone, PartialEq, Eq, Structural)]
pub struct DebounceTimer {
    pub remaining: u64,
    pub running: bool,
}

impl DebounceTimer {
    /// What one tick does to a timer: a stopped timer is untouched; a
    /// running one counts down and fires when the delta covers the rest.
    pub open spec fn spec_tick(self, delta: u64) -> (DebounceTimer, bool) {
        if !self.running {
            (self, false)
        } else if delta >= self.remaining {
            (DebounceTimer { remaining: 0, running: false }, true)
        } else {
            (DebounceTimer { remaining: (self.remaining - delta) as u64, running: true }, false)
        }
    }

    /// A timer that is not counting.
    pub fn new_paused() -> (t: DebounceTimer)
        ensures
            t == (DebounceTimer { remaining: 0u64, running: false }),
    {
        DebounceTimer { remaining: 0, running: false }
    }

    /// Reset to the given duration and start counting.
    pub fn start(&mut self, duration: u64)
        ensures
            *final(self) == (DebounceTimer { remaining: duration, running: true }),
    {
        self.remaining = duration;
        self.running = true;
    }

    /// Advance by `delta` milliseconds; true exactly when the countdown
    /// completes on this tick.
    pub fn tick(&mut self, delta: u64) -> (finished: bool)
        ensures
            (*final(self), finished) == old(self).spec_tick(delta),
    {
        if !self.running {
            return false;
        }
        if delta >= self.remaining {
            self.remaining = 0;
            self.running = false;
            true
        } else {
            self.remaining = self.remaining - delta;
            false
        }
    }
}

/// The per-player component: the toggle debounce and the select debounce
/// with the slot it will select.
#[derive(Debug, Copy, Clone, PartialEq, Eq, Structural)]
pub struct Player {
    pub toggle_select_timer: DebounceTimer,
    /// The slot a completed select debounce will select.
    pub weapon_select_slot: WeaponSlot,
    pub weapon_select_timer: DebounceTimer,
}

impl Player {
    /// A fresh player: both timers stopped, select slot at its default.
    pub fn new() -> (p: Player)
        ensures
            p == (Player {
                toggle_select_timer: DebounceTimer { remaining: 0u64, running: false },
                weapon_select_slot: WeaponSlot::Primary,
                weapon_select_timer: DebounceTimer { remaining: 0u64, running: false },
            }),
    {
        Player {
            toggle_select_timer: DebounceTimer::new_paused(),
            weapon_select_slot: WeaponSlot::Primary,
            weapon_select_timer: DebounceTimer::new_paused(),
        }
    }

    /// Either debounce is still counting, so new slot-change requests
    /// are ignored.
    pub open spec fn spec_busy(self) -> bool {
        self.toggle_select_timer.running || self.weapon_select_timer.running
    }

    /// What this tick's discrete select/toggle intent does to the
    /// player: nothing without a weapon or while a debounce runs; an
    /// explicit selection wins over a toggle; either starts its timer.
    pub open spec fn spec_handle_select(
        self,
        has_weapon: bool,
        toggle_weapon: bool,
        select: Option<WeaponSlot>,
    ) -> Player {
        let started = DebounceTimer { remaining: SELECT_DEBOUNCE_MS, running: true };
        if !has_weapon || self.spec_busy() {
            self
        } else if select is Some {
            Player { weapon_select_slot: select->Some_0, weapon_select_timer: started, ..self }
        } else if toggle_weapon {
            Player { toggle_select_timer: started, ..self }
        } else {
            self
        }
    }

    /// Consume this tick's select/toggle intent, starting the matching
    /// debounce if the loadout holds a weapon and no debounce runs.
    pub fn handle_weapon_select_input(
        &mut self,
        inventory: &Inventory,
        toggle_weapon: bool,
        select: Option<WeaponSlot>,
    )
        ensures
            *final(self) == old(self).spec_handle_select(
                inventory@.primary is Some || inventory@.secondary is Some,
                toggle_weapon,
                select,
            ),
    {
        if !inventory.has_weapon() {
            return;
        }
        if self.toggle_select_timer.running || self.weapon_select_timer.running {
            return;
        }
        match select {
            Some(slot) => {
                self.weapon_select_slot = slot;
                self.weapon_select_timer.start(SELECT_DEBOUNCE_MS);
            },
            None => {
                if toggle_weapon {
                    self.toggle_select_timer.start(SELECT_DEBOUNCE_MS);
                }
            },
        }
    }

    /// The loadout after the debounces run for `delta` milliseconds: a
    /// completed toggle swaps the selected slot, then a completed select
    /// sets it.
    pub open spec fn spec_update_inventory(
        self,
        inv: InventoryView,
        delta: u64,
    ) -> InventoryView {
        let inv1 = if self.toggle_select_timer.spec_tick(delta).1 {
            InventoryView { selected_weapon: inv.selected_weapon.spec_other(), ..inv }
        } else {
            inv
        };
        if self.weapon_select_timer.spec_tick(delta).1 {
            InventoryView { selected_weapon: self.weapon_select_slot, ..inv1 }
        } else {
            inv1
        }
    }

    /// Advance both debounce timers and apply whichever slot change
    /// completed this tick to the loadout.
    pub fn update_player(&mut self, inventory: &mut Inventory, delta: u64)
        ensures
            final(self).toggle_select_timer == old(self).toggle_select_timer.spec_tick(delta).0,
            final(self).weapon_select_slot == old(self).weapon_select_slot,
            final(self).weapon_select_timer == old(self).weapon_select_timer.spec_tick(delta).0,
            final(inventory)@ == old(self).spec_update_inventory(old(inventory)@, delta),
    {
        let toggled = self.toggle_select_timer.tick(delta);
        if toggled {
            inventory.toggle_selected_weapon();
        }
        let selected = self.weapon_select_timer.tick(delta);
        if selected {
            inventory.set_selected_weapon(self.weapon_select_slot);
        }
    }
}

} // verus!
