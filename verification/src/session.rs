//! One player's simulation state and the tick phases that advance it, in
//! the fixed order: select/toggle debounce, weapon firing, projectile
//! spawning, then — after the physics collaborator has stepped — the
//! collision pass, the expiry pass, and interactable pickup. Events are
//! one-shot and cleared unconditionally at tick end.

use vstd::prelude::*;

use crate::data::{spec_weapon_data, weapon_data};
use crate::geom::Vec3Milli;
use crate::input::InputState;
use crate::interactables::{spec_handle_interact, handle_interact, GroundLootEntry, InteractEvent};
use crate::inventory::{Inventory, InventoryItem};
use crate::player::Player;
use crate::projectile::{
    check_projectile_despawn, filter_collisions, handle_collisions, spec_collision_events,
    spec_expire_entry, spec_filter_pairs, spec_fizzle_events, spec_positions_wf,
    spec_resolve_entry, OverlapPair, Projectile, ProjectileCollisionEvent, ProjectileEntry,
    ProjectileFizzleEvent, BULLET_MAX_DISTANCE,
};
use crate::rng::RandomSource;
use crate::weapon::FireWeaponEvent;

verus! {

/// One request to the physics collaborator: spawn a dynamic projectile
/// body with this initial position and velocity (velocity in thousandths
/// of a unit per second).
#[derive(Debug, Copy, Clone, PartialEq, Eq, Structural)]
pub struct SpawnRequest {
    pub id: u64,
    pub origin: Vec3Milli,
    pub velocity: Vec3Milli,
}

/// Initial projectile velocity: muzzle speed (units per second) times
/// the unit-scale aim direction (thousandths), giving thousandths of a
/// unit per second.
pub fn projectile_velocity(speed: i64, direction: Vec3Milli) -> (v: Vec3Milli)
    requires
        0 < speed <= 1_000_000,
        direction.is_direction(),
    ensures
        v == (Vec3Milli {
            x: (speed * direction.x) as i64,
            y: (speed * direction.y) as i64,
            z: (speed * direction.z) as i64,
        }),
{
    assert(-1_000_000_000 <= speed * direction.x <= 1_000_000_000) by (nonlinear_arith)
        requires 0 < speed <= 1_000_000, -1000 <= direction.x <= 1000;
    assert(-1_000_000_000 <= speed * direction.y <= 1_000_000_000) by (nonlinear_arith)
        requires 0 < speed <= 1_000_000, -1000 <= direction.y <= 1000;
    assert(-1_000_000_000 <= speed * direction.z <= 1_000_000_000) by (nonlinear_arith)
        requires 0 < speed <= 1_000_000, -1000 <= direction.z <= 1000;
    Vec3Milli { x: speed * direction.x, y: speed * direction.y, z: speed * direction.z }
}

/// The arena entry a fire event spawns, under a fresh id.
pub open spec fn spec_spawned_entry(ev: FireWeaponEvent, id: u64) -> ProjectileEntry {
    ProjectileEntry {
        id,
        projectile: Projectile {
            owner: ev.owner,
            origin: ev.origin,
            max_distance: BULLET_MAX_DISTANCE,
        },
        alive: true,
    }
}

/// The body request the same fire event sends to the physics
/// collaborator.
pub open spec fn spec_spawn_request(ev: FireWeaponEvent, id: u64) -> SpawnRequest {
    SpawnRequest {
        id,
        origin: ev.origin,
        velocity: Vec3Milli {
            x: (spec_weapon_data(ev.weapon_type).projectile_speed * ev.direction.x) as i64,
            y: (spec_weapon_data(ev.weapon_type).projectile_speed * ev.direction.y) as i64,
            z: (spec_weapon_data(ev.weapon_type).projectile_speed * ev.direction.z) as i64,
        },
    }
}

/// One player's combat state: the loadout, the player's debounce state,
/// the projectile and ground-loot arenas, the fresh-id counter, and the
/// three per-tick event queues.
#[derive(Debug)]
pub struct Session {
    pub player_id: u64,
    pub player: Player,
    pub inventory: Inventory,
    pub projectiles: Vec<ProjectileEntry>,
    pub ground_loot: Vec<GroundLootEntry>,
    pub next_id: u64,
    pub fire_events: Vec<FireWeaponEvent>,
    pub collision_events: Vec<ProjectileCollisionEvent>,
    pub fizzle_events: Vec<ProjectileFizzleEvent>,
}

impl Session {
    /// The session invariant: the loadout within capacity; every arena
    /// id fresh-issued (below the counter) and distinct; every
    /// projectile inside the model bounds; every pending fire event
    /// carrying an in-bounds origin and a unit-scale direction.
    pub open spec fn wf(self) -> bool {
        &&& self.inventory@.wf()
        &&& self.player_id < self.next_id
        &&& forall|k: int|
            0 <= k < self.projectiles@.len() ==> (#[trigger] self.projectiles@[k]).wf()
                && self.projectiles@[k].id < self.next_id
        &&& forall|i: int, j: int|
            0 <= i < j < self.projectiles@.len() ==> (#[trigger] self.projectiles@[i]).id != (
            #[trigger] self.projectiles@[j]).id
        &&& forall|k: int|
            0 <= k < self.ground_loot@.len() ==> (#[trigger] self.ground_loot@[k]).id
                < self.next_id
        &&& forall|i: int, j: int|
            0 <= i < j < self.ground_loot@.len() ==> (#[trigger] self.ground_loot@[i]).id != (
            #[trigger] self.ground_loot@[j]).id
        &&& forall|k: int|
            0 <= k < self.fire_events@.len() ==> (#[trigger] self.fire_events@[k]).origin.in_bounds()
                && self.fire_events@[k].direction.is_direction()
    }

    /// A fresh session: an empty loadout, a fresh player, empty arenas
    /// and queues; the player entity takes the first id.
    pub fn new() -> (s: Session)
        ensures
            s.wf(),
            s.player_id == 0,
            s.next_id == 1,
            s.player == (Player {
                toggle_select_timer: crate::player::DebounceTimer { remaining: 0u64, running: false },
                weapon_select_slot: crate::inventory::WeaponSlot::Primary,
                weapon_select_timer: crate::player::DebounceTimer { remaining: 0u64, running: false },
            }),
            s.inventory@.primary is None,
            s.inventory@.secondary is None,
            s.inventory@.selected_weapon == crate::inventory::WeaponSlot::Primary,
            s.inventory@.items =~= Seq::<crate::inventory::StackEntry>::empty(),
            s.projectiles@ =~= Seq::<ProjectileEntry>::empty(),
            s.ground_loot@ =~= Seq::<GroundLootEntry>::empty(),
            s.fire_events@ =~= Seq::<FireWeaponEvent>::empty(),
            s.collision_events@ =~= Seq::<ProjectileCollisionEvent>::empty(),
            s.fizzle_events@ =~= Seq::<ProjectileFizzleEvent>::empty(),
    {
        Session {
            player_id: 0,
            player: Player::new(),
            inventory: Inventory::default(),
            projectiles: Vec::new(),
            ground_loot: Vec::new(),
            next_id: 1,
            fire_events: Vec::new(),
            collision_events: Vec::new(),
            fizzle_events: Vec::new(),
        }
    }

    /// Place a given item as ground loot under a fresh world entity id.
    pub fn place_ground_loot(&mut self, item: InventoryItem) -> (id: u64)
        requires
            old(self).wf(),
            old(self).next_id < u64::MAX,
        ensures
            final(self).wf(),
            id == old(self).next_id,
            final(self).next_id == old(self).next_id + 1,
            final(self).ground_loot@ == old(self).ground_loot@.push(
                GroundLootEntry { id, item, alive: true },
            ),
            final(self).player_id == old(self).player_id,
            final(self).player == old(self).player,
            final(self).inventory@ == old(self).inventory@,
            final(self).projectiles@ == old(self).projectiles@,
            final(self).fire_events@ == old(self).fire_events@,
            final(self).collision_events@ == old(self).collision_events@,
            final(self).fizzle_events@ == old(self).fizzle_events@,
    {
        let id = self.next_id;
        self.next_id = self.next_id + 1;
        self.ground_loot.push(GroundLootEntry { id, item, alive: true });
        id
    }

    /// Place a random loot drop (as at level population time). Whatever
    /// the generator picks, the item is consistent with the static
    /// tables.
    pub fn spawn_ground_loot(&mut self, rng: &mut RandomSource) -> (id: u64)
        requires
            old(self).wf(),
            old(self).next_id < u64::MAX,
        ensures
            final(self).wf(),
            id == old(self).next_id,
            final(self).next_id == old(self).next_id + 1,
            final(self).ground_loot@.len() == old(self).ground_loot@.len() + 1,
            final(self).ground_loot@.last() == (GroundLootEntry {
                id,
                item: final(self).ground_loot@.last().item,
                alive: true,
            }),
            final(self).ground_loot@.last().item.loot_well_formed(),
            final(self).ground_loot@.subrange(0, old(self).ground_loot@.len() as int) == old(
                self,
            ).ground_loot@,
            final(self).player_id == old(self).player_id,
            final(self).player == old(self).player,
            final(self).inventory@ == old(self).inventory@,
            final(self).projectiles@ == old(self).projectiles@,
            final(self).fire_events@ == old(self).fire_events@,
            final(self).collision_events@ == old(self).collision_events@,
            final(self).fizzle_events@ == old(self).fizzle_events@,
    {
        let item = InventoryItem::random_loot(rng);
        let id = self.place_ground_loot(item);
        proof {
            assert(self.ground_loot@.subrange(0, old(self).ground_loot@.len() as int) =~= old(
                self,
            ).ground_loot@);
        }
        id
    }

    /// The select/toggle phase: consume this tick's discrete intent,
    /// starting the matching debounce where the rules allow.
    pub fn handle_weapon_select_input(&mut self, input: &InputState)
        requires
            old(self).wf(),
        ensures
            final(self).wf(),
            final(self).player == old(self).player.spec_handle_select(
                old(self).inventory@.primary is Some || old(self).inventory@.secondary is Some,
                input.toggle_weapon,
                input.select_weapon_slot,
            ),
            *final(self) == (Session { player: final(self).player, ..*old(self) }),
    {
        self.player.handle_weapon_select_input(
            &self.inventory,
            input.toggle_weapon,
            input.select_weapon_slot,
        );
    }

    /// The debounce phase: advance both timers by the tick length and
    /// apply whichever slot change completed.
    pub fn update_player(&mut self, delta: u64)
        requires
            old(self).wf(),
        ensures
            final(self).wf(),
            final(self).player.toggle_select_timer == old(
                self,
            ).player.toggle_select_timer.spec_tick(delta).0,
            final(self).player.weapon_select_slot == old(self).player.weapon_select_slot,
            final(self).player.weapon_select_timer == old(
                self,
            ).player.weapon_select_timer.spec_tick(delta).0,
            final(self).inventory@ == old(self).player.spec_update_inventory(
                old(self).inventory@,
                delta,
            ),
            *final(self) == (Session {
                player: final(self).player,
                inventory: final(self).inventory,
                ..*old(self)
            }),
    {
        let inv_ref = &mut self.inventory;
        self.player.update_player(inv_ref, delta);
    }

    /// The firing phase: while the fire intent is held, the selected
    /// weapon goes through its gate; a successful shot consumes a round,
    /// stamps the time and appends exactly one fire event.
    pub fn handle_firing(
        &mut self,
        firing: bool,
        now: u64,
        origin: Vec3Milli,
        direction: Vec3Milli,
    ) -> (fired: bool)
        requires
            old(self).wf(),
            origin.in_bounds(),
            direction.is_direction(),
        ensures
            final(self).wf(),
            fired == (firing && old(self).inventory@.spec_fire_succeeds(now)),
            fired ==> final(self).inventory@ == old(self).inventory@.spec_after_fire(now),
            fired ==> final(self).fire_events@ == old(self).fire_events@.push(
                old(self).inventory@.spec_fire_event(old(self).player_id, origin, direction),
            ),
            !fired ==> final(self).inventory@ == old(self).inventory@ && final(self).fire_events@
                == old(self).fire_events@,
            *final(self) == (Session {
                inventory: final(self).inventory,
                fire_events: final(self).fire_events,
                ..*old(self)
            }),
    {
        if !firing {
            proof {
                assert(*self == (Session { inventory: self.inventory, fire_events: self.fire_events, ..*self }));
            }
            return false;
        }
        let owner = self.player_id;
        let inv = &mut self.inventory;
        let evs = &mut self.fire_events;
        let fired = inv.fire_selected(now, owner, origin, direction, evs);
        fired
    }

    /// Spawn one projectile directly, outside the fire-event flow, with
    /// an explicit muzzle speed (units per second) and range
    /// (thousandths of a unit). Returns the body request for the physics
    /// collaborator.
    pub fn spawn_bullet(
        &mut self,
        owner: u64,
        origin: Vec3Milli,
        direction: Vec3Milli,
        speed: i64,
        max_distance: i64,
    ) -> (req: SpawnRequest)
        requires
            old(self).wf(),
            old(self).next_id < u64::MAX,
            origin.in_bounds(),
            direction.is_direction(),
            0 < speed <= 1_000_000,
            0 <= max_distance <= crate::geom::RANGE_LIMIT,
        ensures
            final(self).wf(),
            req == (SpawnRequest {
                id: old(self).next_id,
                origin,
                velocity: Vec3Milli {
                    x: (speed * direction.x) as i64,
                    y: (speed * direction.y) as i64,
                    z: (speed * direction.z) as i64,
                },
            }),
            final(self).next_id == old(self).next_id + 1,
            final(self).projectiles@ == old(self).projectiles@.push(
                ProjectileEntry {
                    id: old(self).next_id,
                    projectile: Projectile { owner, origin, max_distance },
                    alive: true,
                },
            ),
            *final(self) == (Session {
                projectiles: final(self).projectiles,
                next_id: final(self).next_id,
                ..*old(self)
            }),
    {
        let id = self.next_id;
        let velocity = projectile_velocity(speed, direction);
        self.projectiles.push(
            ProjectileEntry { id, projectile: Projectile { owner, origin, max_distance }, alive: true },
        );
        self.next_id = self.next_id + 1;
        SpawnRequest { id, origin, velocity }
    }

    /// The spawn phase: drain the fire events in order, giving each a
    /// live arena entry under a fresh id and a body request for the
    /// physics collaborator, with velocity from the weapon's table entry.
    pub fn spawn_projectiles(&mut self) -> (requests: Vec<SpawnRequest>)
        requires
            old(self).wf(),
            old(self).next_id + old(self).fire_events@.len() <= u64::MAX,
        ensures
            final(self).wf(),
            final(self).fire_events@ =~= Seq::<FireWeaponEvent>::empty(),
            final(self).next_id == old(self).next_id + old(self).fire_events@.len(),
            final(self).projectiles@.len() == old(self).projectiles@.len() + old(
                self,
            ).fire_events@.len(),
            forall|k: int|
                0 <= k < old(self).projectiles@.len() ==> final(self).projectiles@[k] == old(
                    self,
                ).projectiles@[k],
            forall|k: int|
                0 <= k < old(self).fire_events@.len() ==> final(self).projectiles@[old(
                    self,
                ).projectiles@.len() + k] == spec_spawned_entry(
                    old(self).fire_events@[k],
                    (old(self).next_id + k) as u64,
                ),
            requests@.len() == old(self).fire_events@.len(),
            forall|k: int|
                0 <= k < old(self).fire_events@.len() ==> requests@[k] == spec_spawn_request(
                    old(self).fire_events@[k],
                    (old(self).next_id + k) as u64,
                ),
            *final(self) == (Session {
                projectiles: final(self).projectiles,
                next_id: final(self).next_id,
                fire_events: final(self).fire_events,
                ..*old(self)
            }),
    {
        let ghost evs = self.fire_events@;
        let ghost base_len = self.projectiles@.len();
        let ghost base_id = self.next_id;
        let mut requests: Vec<SpawnRequest> = Vec::new();
        let mut i: usize = 0;
        while i < self.fire_events.len()
            invariant
                0 <= i <= evs.len(),
                self.fire_events@ == evs,
                self.wf(),
                self.next_id == base_id + i,
                base_id + evs.len() <= u64::MAX,
                self.projectiles@.len() == base_len + i,
                forall|k: int|
                    0 <= k < base_len ==> self.projectiles@[k] == old(self).projectiles@[k],
                forall|k: int|
                    0 <= k < i ==> self.projectiles@[base_len + k] == spec_spawned_entry(
                        evs[k],
                        (base_id + k) as u64,
                    ),
                requests@.len() == i,
                forall|k: int|
                    0 <= k < i ==> requests@[k] == spec_spawn_request(
                        evs[k],
                        (base_id + k) as u64,
                    ),
                self.player_id == old(self).player_id,
                self.player == old(self).player,
                self.inventory == old(self).inventory,
                self.ground_loot == old(self).ground_loot,
                self.collision_events == old(self).collision_events,
                self.fizzle_events == old(self).fizzle_events,
            decreases evs.len() - i,
        {
            let ev = self.fire_events[i];
            let id = self.next_id;
            let data = weapon_data(ev.weapon_type);
            let velocity = projectile_velocity(data.projectile_speed, ev.direction);
            self.projectiles.push(
                ProjectileEntry {
                    id,
                    projectile: Projectile {
                        owner: ev.owner,
                        origin: ev.origin,
                        max_distance: BULLET_MAX_DISTANCE,
                    },
                    alive: true,
                },
            );
            requests.push(SpawnRequest { id, origin: ev.origin, velocity });
            self.next_id = self.next_id + 1;
            i = i + 1;
        }
        self.fire_events.clear();
        requests
    }

    /// The post-physics projectile step, in the contract's order:
    /// self-exclusion filtering, then the collision pass, then the
    /// expiry pass on what survived. A projectile that both collides and
    /// times out in this tick is despawned as a collision, never as a
    /// fizzle; no projectile is despawned twice.
    pub fn step_projectiles(&mut self, pairs: &Vec<OverlapPair>, positions: &Vec<(u64, Vec3Milli)>)
        requires
            old(self).wf(),
            spec_positions_wf(positions@),
        ensures
            final(self).wf(),
            ({
                let filtered = spec_filter_pairs(old(self).projectiles@, pairs@);
                let resolved = Seq::new(
                    old(self).projectiles@.len(),
                    |k: int| spec_resolve_entry(old(self).projectiles@[k], filtered),
                );
                &&& final(self).projectiles@.len() == old(self).projectiles@.len()
                &&& (forall|k: int|
                    0 <= k < old(self).projectiles@.len() ==> final(self).projectiles@[k]
                        == spec_expire_entry(resolved[k], positions@))
                &&& final(self).collision_events@ == old(self).collision_events@
                    + spec_collision_events(old(self).projectiles@, filtered)
                &&& final(self).fizzle_events@ == old(self).fizzle_events@ + spec_fizzle_events(
                    resolved,
                    positions@,
                )
            }),
            // the two despawn paths are mutually exclusive this tick
            forall|i: int, j: int|
                (old(self).collision_events@.len() <= i < final(self).collision_events@.len()
                    && old(self).fizzle_events@.len() <= j < final(self).fizzle_events@.len())
                    ==> (#[trigger] final(self).collision_events@[i]).projectile
                    != (#[trigger] final(self).fizzle_events@[j]).projectile,
            *final(self) == (Session {
                projectiles: final(self).projectiles,
                collision_events: final(self).collision_events,
                fizzle_events: final(self).fizzle_events,
                ..*old(self)
            }),
    {
        let ghost entries0 = self.projectiles@;
        let filtered = filter_collisions(&self.projectiles, pairs);
        handle_collisions(&mut self.projectiles, &filtered, &mut self.collision_events);
        let ghost resolved = Seq::new(
            entries0.len(),
            |k: int| spec_resolve_entry(entries0[k], filtered@),
        );
        proof {
            assert(self.projectiles@ =~= resolved);
        }
        check_projectile_despawn(&mut self.projectiles, positions, &mut self.fizzle_events);
        proof {
            assert forall|i: int, j: int|
                old(self).collision_events@.len() <= i < self.collision_events@.len() && old(
                    self,
                ).fizzle_events@.len() <= j < self.fizzle_events@.len() implies (#[trigger]
            self.collision_events@[i]).projectile != (#[trigger] self.fizzle_events@[j]).projectile by {
                let i0 = i - old(self).collision_events@.len();
                let j0 = j - old(self).fizzle_events@.len();
                crate::projectile::lemma_despawn_paths_exclusive(
                    entries0,
                    filtered@,
                    positions@,
                    resolved,
                    i0,
                    j0,
                );
            }
        }
    }

    /// The pickup phase: an edge-triggered interact intent negotiates
    /// the first overlapped live interactable with the loadout; success
    /// removes the world entry, failure leaves everything untouched.
    /// Returns the one-shot event naming the removed world entity, if
    /// any.
    pub fn handle_interact_input(&mut self, interact: bool, overlaps: &Vec<u64>) -> (picked: Option<
        InteractEvent,
    >)
        requires
            old(self).wf(),
        ensures
            final(self).wf(),
            !interact ==> picked is None && *final(self) == *old(self),
            interact ==> (final(self).ground_loot@, final(self).inventory@, picked)
                == spec_handle_interact(
                old(self).ground_loot@,
                old(self).inventory@,
                overlaps@,
            ),
            picked is None ==> final(self).ground_loot@ == old(self).ground_loot@
                && final(self).inventory@ == old(self).inventory@,
            *final(self) == (Session {
                ground_loot: final(self).ground_loot,
                inventory: final(self).inventory,
                ..*old(self)
            }),
    {
        if !interact {
            return None;
        }
        let loot = &mut self.ground_loot;
        let inv = &mut self.inventory;
        let picked = handle_interact(loot, inv, overlaps);
        proof {
            if picked is Some {
                crate::interactables::lemma_first_interactable_live(
                    old(self).ground_loot@,
                    overlaps@,
                );
                crate::interactables::lemma_live_loot_at_found(
                    old(self).ground_loot@,
                    picked->Some_0.target,
                );
                let k = crate::interactables::spec_live_loot_at(
                    old(self).ground_loot@,
                    picked->Some_0.target,
                )->Some_0;
                crate::inventory::lemma_add_item_preserves_wf(
                    old(self).inventory@,
                    old(self).ground_loot@[k].item,
                );
            }
        }
        picked
    }

    /// Tick end: one-shot events not consumed this tick are dropped
    /// unconditionally (at-most-once delivery); nothing else changes.
    pub fn end_tick(&mut self)
        requires
            old(self).wf(),
        ensures
            final(self).wf(),
            final(self).fire_events@ =~= Seq::<FireWeaponEvent>::empty(),
            final(self).collision_events@ =~= Seq::<ProjectileCollisionEvent>::empty(),
            final(self).fizzle_events@ =~= Seq::<ProjectileFizzleEvent>::empty(),
            *final(self) == (Session {
                fire_events: final(self).fire_events,
                collision_events: final(self).collision_events,
                fizzle_events: final(self).fizzle_events,
                ..*old(self)
            }),
    {
        self.fire_events.clear();
        self.collision_events.clear();
        self.fizzle_events.clear();
    }
}

} // verus!
