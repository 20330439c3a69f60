//! The loadout: two fixed weapon slots, a selected-slot indicator, and a
//! capacity-bounded ordered collection of stackable items keyed by item
//! kind. The single source of truth for what the player carries; every
//! mutation is atomic — on failure nothing is applied.

use vstd::prelude::*;

use crate::data::{
    all_ammo_types, all_weapon_types, ammo_data, spec_ammo_data, spec_weapon_data, weapon_data,
    AmmoType, WeaponType,
};
use crate::geom::Vec3Milli;
use crate::rng::RandomSource;
use crate::weapon::{FireWeaponEvent, Weapon};

verus! {

/// One thing a loadout can hold: a weapon (with its loaded round count)
/// or a stackable item.
#[derive(Debug, Copy, Clone, PartialEq, Eq, Structural, Hash)]
pub enum InventoryItem {
    Weapon(WeaponType, usize),
    Ammo(AmmoType, usize),
    Throwable,
    Consumable,
}

impl InventoryItem {
    /// Weapon-kind items go to a weapon slot; everything else stacks.
    pub open spec fn is_weapon(self) -> bool {
        self is Weapon
    }

    /// The stack slot a non-weapon item goes to.
    pub open spec fn spec_stack_kind(self) -> Option<StackKind> {
        match self {
            InventoryItem::Weapon(_, _) => None,
            InventoryItem::Ammo(t, _) => Some(StackKind::Ammo(t)),
            InventoryItem::Throwable => Some(StackKind::Throwable),
            InventoryItem::Consumable => Some(StackKind::Consumable),
        }
    }

    pub fn stack_kind(self) -> (r: Option<StackKind>)
        ensures
            r == self.spec_stack_kind(),
    {
        match self {
            InventoryItem::Weapon(_, _) => None,
            InventoryItem::Ammo(t, _) => Some(StackKind::Ammo(t)),
            InventoryItem::Throwable => Some(StackKind::Throwable),
            InventoryItem::Consumable => Some(StackKind::Consumable),
        }
    }

    /// How much one pickup of this item adds to its stack.
    pub open spec fn spec_stack_amount(self) -> usize {
        match self {
            InventoryItem::Weapon(_, _) => 0,
            InventoryItem::Ammo(_, n) => n,
            InventoryItem::Throwable => 1,
            InventoryItem::Consumable => 1,
        }
    }

    pub fn stack_amount(self) -> (n: usize)
        ensures
            n == self.spec_stack_amount(),
    {
        match self {
            InventoryItem::Weapon(_, _) => 0,
            InventoryItem::Ammo(_, n) => n,
            InventoryItem::Throwable => 1,
            InventoryItem::Consumable => 1,
        }
    }

    /// A loot drop consistent with the static tables: weapons drop with
    /// a full magazine, ammunition drops in its loot stack size.
    pub open spec fn loot_well_formed(self) -> bool {
        match self {
            InventoryItem::Weapon(t, n) => n == spec_weapon_data(t).magazine_size,
            InventoryItem::Ammo(t, n) => n == spec_ammo_data(t).loot_size,
            _ => true,
        }
    }

    /// Draw a random loot item: one of the four item kinds, then a
    /// random weapon or ammunition type where the kind calls for one.
    /// Which item comes back depends on the generator's state; every
    /// outcome is consistent with the static tables.
    pub fn random_loot(rng: &mut RandomSource) -> (item: InventoryItem)
        ensures
            item.loot_well_formed(),
    {
        let kind = rng.draw_below(4);
        if kind == 0 {
            let types = all_weapon_types();
            let idx = rng.draw_below(types.len());
            let t = types[idx];
            let d = weapon_data(t);
            InventoryItem::Weapon(t, d.magazine_size)
        } else if kind == 1 {
            let types = all_ammo_types();
            let idx = rng.draw_below(types.len());
            let t = types[idx];
            let d = ammo_data(t);
            InventoryItem::Ammo(t, d.loot_size)
        } else if kind == 2 {
            InventoryItem::Throwable
        } else {
            InventoryItem::Consumable
        }
    }
}

/// The key of the stack list: which kind of stackable item a slot
/// holds. Weapons never stack.
#[derive(Debug, Copy, Clone, PartialEq, Eq, Structural, Hash)]
pub enum StackKind {
    Ammo(AmmoType),
    Throwable,
    Consumable,
}

/// One stack slot: a kind and how many of it are carried.
#[derive(Debug, Copy, Clone, PartialEq, Eq, Structural)]
pub struct StackEntry {
    pub kind: StackKind,
    pub count: usize,
}

/// The per-kind stack cap: ammunition is bounded by its table entry;
/// kinds the tables give no cap for are bounded only by the machine
/// word.
pub open spec fn spec_stack_cap(kind: StackKind) -> int {
    match kind {
        StackKind::Ammo(t) => spec_ammo_data(t).stack_size as int,
        _ => usize::MAX as int,
    }
}

pub fn stack_cap(kind: StackKind) -> (c: usize)
    ensures
        c as int == spec_stack_cap(kind),
{
    match kind {
        StackKind::Ammo(t) => ammo_data(t).stack_size,
        _ => usize::MAX,
    }
}

/// The first stack slot holding the given kind, if any.
pub open spec fn spec_stack_index_of(items: Seq<StackEntry>, kind: StackKind) -> Option<int>
    decreases items.len(),
{
    if items.len() == 0 {
        None
    } else if items[0].kind == kind {
        Some(0int)
    } else {
        match spec_stack_index_of(items.drop_first(), kind) {
            None => None,
            Some(k) => Some(k + 1),
        }
    }
}

/// A found stack index points at a slot of the kind.
pub proof fn lemma_stack_index_found(items: Seq<StackEntry>, kind: StackKind)
    requires
        spec_stack_index_of(items, kind) is Some,
    ensures
        0 <= spec_stack_index_of(items, kind)->Some_0 < items.len(),
        items[spec_stack_index_of(items, kind)->Some_0].kind == kind,
    decreases items.len(),
{
    if items.len() > 0 {
        if items[0].kind == kind {
        } else {
            lemma_stack_index_found(items.drop_first(), kind);
        }
    }
}

/// An absent kind is in no slot at all.
pub proof fn lemma_stack_index_none(items: Seq<StackEntry>, kind: StackKind)
    requires
        spec_stack_index_of(items, kind) is None,
    ensures
        forall|i: int| 0 <= i < items.len() ==> (#[trigger] items[i]).kind != kind,
    decreases items.len(),
{
    if items.len() > 0 {
        lemma_stack_index_none(items.drop_first(), kind);
        assert forall|i: int| 0 <= i < items.len() implies (#[trigger] items[i]).kind != kind by {
            if i > 0 {
                assert(items.drop_first()[i - 1] == items[i]);
            }
        }
    }
}

/// If nothing in the first `k` slots matches, the search over the whole
/// list is the search past `k`, shifted.
proof fn lemma_stack_index_skip(items: Seq<StackEntry>, kind: StackKind, k: int)
    requires
        0 <= k <= items.len(),
        forall|j: int| 0 <= j < k ==> (#[trigger] items[j]).kind != kind,
    ensures
        spec_stack_index_of(items, kind) == match spec_stack_index_of(items.skip(k), kind) {
            None => None::<int>,
            Some(i) => Some(i + k),
        },
    decreases k,
{
    if k == 0 {
        assert(items.skip(0) =~= items);
    } else {
        lemma_stack_index_skip(items.drop_first(), kind, k - 1);
        assert(items.drop_first().skip(k - 1) =~= items.skip(k));
        assert(forall|j: int|
            0 <= j < k - 1 ==> (#[trigger] items.drop_first()[j]) == items[j + 1]);
    }
}

fn stack_index_of(items: &Vec<StackEntry>, kind: StackKind) -> (r: Option<usize>)
    ensures
        match r {
            Some(k) => spec_stack_index_of(items@, kind) == Some(k as int),
            None => spec_stack_index_of(items@, kind) is None,
        },
{
    let mut k: usize = 0;
    while k < items.len()
        invariant
            0 <= k <= items@.len(),
            forall|j: int| 0 <= j < k ==> (#[trigger] items@[j]).kind != kind,
        decreases items@.len() - k,
    {
        if items[k].kind == kind {
            proof {
                lemma_stack_index_skip(items@, kind, k as int);
                assert(items@.skip(k as int)[0] == items@[k as int]);
            }
            return Some(k);
        }
        k = k + 1;
    }
    proof {
        lemma_stack_index_skip(items@, kind, items@.len() as int);
        assert(items@.skip(items@.len() as int).len() == 0);
    }
    None
}

/// The two fixed weapon-holding positions of a loadout.
#[derive(Debug, Copy, Clone, PartialEq, Eq, Structural)]
pub enum WeaponSlot {
    Primary,
    Secondary,
}

impl WeaponSlot {
    /// The slot a toggle switches to.
    pub open spec fn spec_other(self) -> WeaponSlot {
        match self {
            WeaponSlot::Primary => WeaponSlot::Secondary,
            WeaponSlot::Secondary => WeaponSlot::Primary,
        }
    }

    pub fn other(self) -> (s: WeaponSlot)
        ensures
            s == self.spec_other(),
    {
        match self {
            WeaponSlot::Primary => WeaponSlot::Secondary,
            WeaponSlot::Secondary => WeaponSlot::Primary,
        }
    }
}

impl Default for WeaponSlot {
    fn default() -> (s: WeaponSlot)
        ensures
            s == WeaponSlot::Primary,
    {
        WeaponSlot::Primary
    }
}

/// Mathematical model of a loadout.
pub struct InventoryView {
    pub primary: Option<Weapon>,
    pub secondary: Option<Weapon>,
    pub selected_weapon: WeaponSlot,
    pub size: nat,
    pub items: Seq<StackEntry>,
}

impl InventoryView {
    /// The weapon (if any) in the given slot.
    pub open spec fn slot(self, s: WeaponSlot) -> Option<Weapon> {
        match s {
            WeaponSlot::Primary => self.primary,
            WeaponSlot::Secondary => self.secondary,
        }
    }

    /// The weapon in the currently selected slot.
    pub open spec fn selected(self) -> Option<Weapon> {
        self.slot(self.selected_weapon)
    }

    /// This view with one slot replaced.
    pub open spec fn with_slot(self, s: WeaponSlot, w: Option<Weapon>) -> InventoryView {
        match s {
            WeaponSlot::Primary => InventoryView { primary: w, ..self },
            WeaponSlot::Secondary => InventoryView { secondary: w, ..self },
        }
    }

    /// The loadout invariant: never more distinct stack slots than the
    /// inventory has room for, one slot per kind, and no stack beyond
    /// its per-kind cap.
    pub open spec fn wf(self) -> bool {
        &&& self.items.len() <= self.size
        &&& forall|i: int|
            0 <= i < self.items.len() ==> (#[trigger] self.items[i]).count <= spec_stack_cap(
                self.items[i].kind,
            )
        &&& forall|i: int, j: int|
            0 <= i < j < self.items.len() ==> (#[trigger] self.items[i]).kind != (
            #[trigger] self.items[j]).kind
    }

    /// The selected weapon exists and passes its firing gate at `now`.
    pub open spec fn spec_fire_succeeds(self, now: u64) -> bool {
        self.selected() matches Some(w) && w.spec_can_fire(
            crate::data::spec_weapon_data(w.weapon_type),
            now,
        )
    }

    /// The loadout after a successful fire of the selected weapon: one
    /// round consumed, the shot time stamped, everything else untouched.
    pub open spec fn spec_after_fire(self, now: u64) -> InventoryView {
        let w = self.selected()->Some_0;
        self.with_slot(
            self.selected_weapon,
            Some(
                Weapon {
                    weapon_type: w.weapon_type,
                    ammo_count: (w.ammo_count - 1) as usize,
                    last_fire_ts: now,
                },
            ),
        )
    }

    /// The event a successful fire of the selected weapon emits.
    pub open spec fn spec_fire_event(
        self,
        owner: u64,
        origin: Vec3Milli,
        direction: Vec3Milli,
    ) -> FireWeaponEvent {
        FireWeaponEvent {
            owner,
            weapon_type: self.selected()->Some_0.weapon_type,
            origin,
            direction,
        }
    }

    /// What `add_item` does to a loadout: the resulting loadout and
    /// whether the item was accepted. Weapon-kind items fill the
    /// selected slot if empty, else the other slot if empty, else fail.
    /// A stackable item raises its kind's counter, bounded by the
    /// per-kind cap; a kind not yet carried takes a new stack slot while
    /// total capacity remains. Failure changes nothing.
    pub open spec fn spec_add_item(self, item: InventoryItem) -> (InventoryView, bool) {
        match item {
            InventoryItem::Weapon(t, n) => {
                let w = Weapon { weapon_type: t, ammo_count: n, last_fire_ts: 0 };
                if self.selected() is None {
                    (self.with_slot(self.selected_weapon, Some(w)), true)
                } else if self.slot(self.selected_weapon.spec_other()) is None {
                    (self.with_slot(self.selected_weapon.spec_other(), Some(w)), true)
                } else {
                    (self, false)
                }
            },
            _ => {
                let kind = item.spec_stack_kind()->Some_0;
                let n = item.spec_stack_amount();
                match spec_stack_index_of(self.items, kind) {
                    Some(i) => {
                        if self.items[i].count + n <= spec_stack_cap(kind) {
                            (
                                InventoryView {
                                    items: self.items.update(
                                        i,
                                        StackEntry {
                                            kind,
                                            count: (self.items[i].count + n) as usize,
                                        },
                                    ),
                                    ..self
                                },
                                true,
                            )
                        } else {
                            (self, false)
                        }
                    },
                    None => {
                        if self.items.len() < self.size && n <= spec_stack_cap(kind) {
                            (
                                InventoryView {
                                    items: self.items.push(StackEntry { kind, count: n }),
                                    ..self
                                },
                                true,
                            )
                        } else {
                            (self, false)
                        }
                    },
                }
            },
        }
    }
}

/// The player's loadout. Created empty at spawn; mutated only through
/// the operations below.
#[derive(Debug)]
pub struct Inventory {
    pub primary: Option<Weapon>,
    pub secondary: Option<Weapon>,
    pub selected_weapon: WeaponSlot,
    pub size: usize,
    pub items: Vec<StackEntry>,
}

impl View for Inventory {
    type V = InventoryView;

    open spec fn view(&self) -> InventoryView {
        InventoryView {
            primary: self.primary,
            secondary: self.secondary,
            selected_weapon: self.selected_weapon,
            size: self.size as nat,
            items: self.items@,
        }
    }
}

/// Stack capacity a fresh loadout starts with.
pub const DEFAULT_INVENTORY_SIZE: usize = 10;

impl Default for Inventory {
    /// An empty loadout: no weapons, primary slot selected, default
    /// stack capacity.
    fn default() -> (inv: Inventory)
        ensures
            inv@.primary is None,
            inv@.secondary is None,
            inv@.selected_weapon == WeaponSlot::Primary,
            inv@.size == DEFAULT_INVENTORY_SIZE,
            inv@.items =~= Seq::<StackEntry>::empty(),
            inv@.wf(),
    {
        Inventory {
            primary: None,
            secondary: None,
            selected_weapon: WeaponSlot::Primary,
            size: DEFAULT_INVENTORY_SIZE,
            items: Vec::new(),
        }
    }
}

impl Inventory {
    /// True if either slot is occupied.
    pub fn has_weapon(&self) -> (r: bool)
        ensures
            r == (self@.primary is Some || self@.secondary is Some),
    {
        self.primary.is_some() || self.secondary.is_some()
    }

    pub fn get_primary_weapon(&self) -> (r: Option<Weapon>)
        ensures
            r == self@.primary,
    {
        self.primary
    }

    pub fn get_secondary_weapon(&self) -> (r: Option<Weapon>)
        ensures
            r == self@.secondary,
    {
        self.secondary
    }

    /// The stack list, one slot per carried kind, for display.
    pub fn get_items(&self) -> (r: &Vec<StackEntry>)
        ensures
            r@ == self@.items,
    {
        &self.items
    }

    fn get_weapon_item(&self, weapon_slot: WeaponSlot) -> (r: Option<Weapon>)
        ensures
            r == self@.slot(weapon_slot),
    {
        match weapon_slot {
            WeaponSlot::Primary => self.primary,
            WeaponSlot::Secondary => self.secondary,
        }
    }

    /// The weapon in the currently selected slot, absence for an empty
    /// slot; never panics.
    pub fn get_selected_weapon_item(&self) -> (r: Option<Weapon>)
        ensures
            r == self@.selected(),
    {
        self.get_weapon_item(self.selected_weapon)
    }

    fn get_unselected_weapon_item(&self) -> (r: Option<Weapon>)
        ensures
            r == self@.slot(self@.selected_weapon.spec_other()),
    {
        self.get_weapon_item(self.selected_weapon.other())
    }

    fn set_weapon_item(&mut self, weapon_slot: WeaponSlot, weapon: Weapon)
        ensures
            final(self)@ == old(self)@.with_slot(weapon_slot, Some(weapon)),
    {
        match weapon_slot {
            WeaponSlot::Primary => {
                self.primary = Some(weapon);
            },
            WeaponSlot::Secondary => {
                self.secondary = Some(weapon);
            },
        }
    }

    /// Make the given slot the selected one, unconditionally; selecting
    /// the already-selected slot changes nothing else (idempotent).
    pub fn set_selected_weapon(&mut self, weapon_slot: WeaponSlot)
        ensures
            final(self)@ == (InventoryView { selected_weapon: weapon_slot, ..old(self)@ }),
    {
        self.selected_weapon = weapon_slot;
    }

    /// Swap the selected slot between the two fixed slots.
    pub fn toggle_selected_weapon(&mut self)
        ensures
            final(self)@ == (InventoryView {
                selected_weapon: old(self)@.selected_weapon.spec_other(),
                ..old(self)@
            }),
    {
        let next = self.selected_weapon.other();
        self.set_selected_weapon(next);
    }

    /// Attempt to add an item. Returns whether it was accepted; on
    /// failure the loadout is exactly as before (no partial
    /// application). A weapon-kind item succeeds only if at least one
    /// slot is empty; a stackable item only while its per-kind cap and
    /// the total stack capacity allow.
    pub fn add_item(&mut self, item: InventoryItem) -> (r: bool)
        ensures
            (final(self)@, r) == old(self)@.spec_add_item(item),
            // failure leaves the loadout exactly as before
            !r ==> final(self)@ == old(self)@,
            // a weapon-kind item on a full loadout fails
            item.is_weapon() && old(self)@.primary is Some && old(self)@.secondary is Some
                ==> !r,
            old(self)@.wf() ==> final(self)@.wf(),
    {
        proof {
            if old(self)@.wf() {
                lemma_add_item_preserves_wf(old(self)@, item);
            }
        }
        match item {
            InventoryItem::Weapon(weapon_type, ammo_count) => {
                if self.get_selected_weapon_item().is_none() {
                    let slot = self.selected_weapon;
                    self.set_weapon_item(slot, Weapon::new(weapon_type, ammo_count));
                    true
                } else if self.get_unselected_weapon_item().is_none() {
                    let slot = self.selected_weapon.other();
                    self.set_weapon_item(slot, Weapon::new(weapon_type, ammo_count));
                    true
                } else {
                    false
                }
            },
            InventoryItem::Ammo(_, _) | InventoryItem::Throwable | InventoryItem::Consumable => {
                let kind = item.stack_kind().unwrap();
                let n = item.stack_amount();
                let cap = stack_cap(kind);
                match stack_index_of(&self.items, kind) {
                    Some(i) => {
                        proof {
                            lemma_stack_index_found(self.items@, kind);
                        }
                        let count = self.items[i].count;
                        if n <= cap && count <= cap - n {
                            self.items.set(i, StackEntry { kind, count: count + n });
                            true
                        } else {
                            false
                        }
                    },
                    None => {
                        if self.items.len() < self.size && n <= cap {
                            self.items.push(StackEntry { kind, count: n });
                            true
                        } else {
                            false
                        }
                    },
                }
            },
        }
    }

    /// Fire the selected weapon, if any, against its static data. The
    /// selected slot's weapon goes through the firing gate; no weapon
    /// selected means a silent rejection. Everything else in the loadout
    /// is untouched.
    pub fn fire_selected(
        &mut self,
        now: u64,
        owner: u64,
        origin: Vec3Milli,
        direction: Vec3Milli,
        events: &mut Vec<FireWeaponEvent>,
    ) -> (fired: bool)
        ensures
            fired == old(self)@.spec_fire_succeeds(now),
            fired ==> final(self)@ == old(self)@.spec_after_fire(now),
            fired ==> final(events)@ == old(events)@.push(
                old(self)@.spec_fire_event(owner, origin, direction),
            ),
            !fired ==> final(self)@ == old(self)@ && final(events)@ == old(events)@,
    {
        let slot = self.selected_weapon;
        match self.get_weapon_item(slot) {
            None => false,
            Some(mut w) => {
                let data = crate::data::weapon_data(w.weapon_type);
                let fired = w.fire(&data, now, owner, origin, direction, events);
                if fired {
                    self.set_weapon_item(slot, w);
                }
                fired
            },
        }
    }
}

/// A weapon-kind item is accepted exactly when at least one slot is
/// empty, and rejection leaves the loadout untouched.
pub proof fn lemma_add_weapon_needs_empty_slot(inv: InventoryView, t: WeaponType, n: usize)
    ensures
        inv.spec_add_item(InventoryItem::Weapon(t, n)).1
            == (inv.primary is None || inv.secondary is None),
        !(inv.primary is None || inv.secondary is None)
            ==> inv.spec_add_item(InventoryItem::Weapon(t, n)).0 == inv,
{
    match inv.selected_weapon {
        WeaponSlot::Primary => {},
        WeaponSlot::Secondary => {},
    }
}

/// Adding an item to a well-formed loadout keeps it well-formed: stacks
/// stay within their per-kind caps, kinds stay distinct, and the number
/// of stack slots stays within capacity.
pub proof fn lemma_add_item_preserves_wf(inv: InventoryView, item: InventoryItem)
    requires
        inv.wf(),
    ensures
        inv.spec_add_item(item).0.wf(),
{
    match item {
        InventoryItem::Weapon(_, _) => {},
        _ => {
            let kind = item.spec_stack_kind()->Some_0;
            match spec_stack_index_of(inv.items, kind) {
                Some(i) => {
                    lemma_stack_index_found(inv.items, kind);
                },
                None => {
                    lemma_stack_index_none(inv.items, kind);
                },
            }
        },
    }
}

/// A stackable item is accepted exactly while its kind's cap and the
/// total stack capacity allow, and rejection leaves the stack list
/// untouched: a carried kind takes the addition only up to its per-kind
/// cap; a new kind takes a slot only while slots remain.
pub proof fn lemma_add_stackable_respects_capacity(inv: InventoryView, item: InventoryItem)
    requires
        !item.is_weapon(),
    ensures
        ({
            let kind = item.spec_stack_kind()->Some_0;
            let n = item.spec_stack_amount();
            inv.spec_add_item(item).1 == match spec_stack_index_of(inv.items, kind) {
                Some(i) => inv.items[i].count + n <= spec_stack_cap(kind),
                None => inv.items.len() < inv.size && n <= spec_stack_cap(kind),
            }
        }),
        !inv.spec_add_item(item).1 ==> inv.spec_add_item(item).0 == inv,
        inv.items.len() >= inv.size && spec_stack_index_of(
            inv.items,
            item.spec_stack_kind()->Some_0,
        ) is None ==> !inv.spec_add_item(item).1,
{
}

} // verus!
