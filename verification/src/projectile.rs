//! Projectile lifecycle and collision resolution. Projectiles live in an
//! arena of entries keyed by opaque ids; motion and overlap detection
//! belong to the physics collaborator, which hands in overlap pairs and
//! current positions as plain values.
//!
//! The tick runs two passes over the physics output: first the raw
//! overlap pairs are filtered so that no projectile can strike the body
//! that fired it, then each live projectile that still overlaps
//! something is despawned with exactly one collision event. Expiry by
//! travelled distance is a separate, later pass: a projectile that both
//! collides and times out in one tick counts as a collision, never as a
//! fizzle.

use vstd::prelude::*;

use crate::geom::{spec_dist_sq, dist_sq, Vec3Milli, RANGE_LIMIT};

verus! {

/// Radius of a bullet's collision sphere, in thousandths of a unit.
pub const BULLET_RADIUS: i64 = 100;

/// How far a bullet may travel before it fizzles, in thousandths of a
/// unit (the weapon-derived range constant).
pub const BULLET_MAX_DISTANCE: i64 = 25_000;

/// The per-projectile record: who fired it (for self-collision
/// exclusion), where it started, and how far it may travel.
#[derive(Debug, Copy, Clone, PartialEq, Eq, Structural)]
pub struct Projectile {
    pub owner: u64,
    pub origin: Vec3Milli,
    pub max_distance: i64,
}

/// One arena slot: a projectile entity id, its record, and whether it is
/// still live. A despawn clears `alive` exactly once; despawning a dead
/// entry is a no-op.
#[derive(Debug, Copy, Clone, PartialEq, Eq, Structural)]
pub struct ProjectileEntry {
    pub id: u64,
    pub projectile: Projectile,
    pub alive: bool,
}

/// One raw overlap the physics collaborator reported this tick.
#[derive(Debug, Copy, Clone, PartialEq, Eq, Structural)]
pub struct OverlapPair {
    pub a: u64,
    pub b: u64,
}

/// One-shot signal: a projectile struck an entity and was despawned.
#[derive(Debug, Copy, Clone, PartialEq, Eq, Structural)]
pub struct ProjectileCollisionEvent {
    pub projectile: u64,
    pub target: u64,
}

/// One-shot signal: a projectile exceeded its range and was despawned
/// without striking anything.
#[derive(Debug, Copy, Clone, PartialEq, Eq, Structural)]
pub struct ProjectileFizzleEvent {
    pub projectile: u64,
}

impl ProjectileEntry {
    /// Model bounds every arena entry obeys.
    pub open spec fn wf(self) -> bool {
        &&& self.projectile.origin.in_bounds()
        &&& 0 <= self.projectile.max_distance <= RANGE_LIMIT
    }
}

pub open spec fn spec_entries_wf(entries: Seq<ProjectileEntry>) -> bool {
    forall|k: int| 0 <= k < entries.len() ==> #[trigger] entries[k].wf()
}

pub open spec fn spec_positions_wf(positions: Seq<(u64, Vec3Milli)>) -> bool {
    forall|k: int| 0 <= k < positions.len() ==> (#[trigger] positions[k]).1.in_bounds()
}

/// The pair joins a live projectile with that projectile's own owner.
pub open spec fn spec_is_self_pair(entries: Seq<ProjectileEntry>, p: OverlapPair) -> bool {
    exists|k: int|
        0 <= k < entries.len() && (#[trigger] entries[k]).alive && ((entries[k].id == p.a
            && entries[k].projectile.owner == p.b) || (entries[k].id == p.b
            && entries[k].projectile.owner == p.a))
}

/// The overlap pairs that survive the self-exclusion filter, in order.
pub open spec fn spec_filter_pairs(
    entries: Seq<ProjectileEntry>,
    pairs: Seq<OverlapPair>,
) -> Seq<OverlapPair>
    decreases pairs.len(),
{
    if pairs.len() == 0 {
        Seq::empty()
    } else {
        let rest = spec_filter_pairs(entries, pairs.drop_last());
        if spec_is_self_pair(entries, pairs.last()) {
            rest
        } else {
            rest.push(pairs.last())
        }
    }
}

/// Everything the filter keeps came from the input and is not a
/// self-pair.
pub proof fn lemma_filter_pairs_sound(
    entries: Seq<ProjectileEntry>,
    pairs: Seq<OverlapPair>,
    i: int,
)
    requires
        0 <= i < spec_filter_pairs(entries, pairs).len(),
    ensures
        pairs.contains(spec_filter_pairs(entries, pairs)[i]),
        !spec_is_self_pair(entries, spec_filter_pairs(entries, pairs)[i]),
    decreases pairs.len(),
{
    let kept = spec_filter_pairs(entries, pairs);
    let rest = spec_filter_pairs(entries, pairs.drop_last());
    if i < rest.len() {
        lemma_filter_pairs_sound(entries, pairs.drop_last(), i);
        assert(pairs.drop_last().contains(rest[i]));
        let j = choose|j: int| 0 <= j < pairs.drop_last().len() && pairs.drop_last()[j] == rest[i];
        assert(pairs[j] == kept[i]);
    } else {
        assert(kept[i] == pairs.last());
        assert(pairs[pairs.len() - 1] == pairs.last());
    }
}

fn is_self_pair(entries: &Vec<ProjectileEntry>, p: OverlapPair) -> (r: bool)
    ensures
        r == spec_is_self_pair(entries@, p),
{
    let mut k: usize = 0;
    while k < entries.len()
        invariant
            0 <= k <= entries@.len(),
            forall|j: int|
                0 <= j < k ==> !((#[trigger] entries@[j]).alive && ((entries@[j].id == p.a
                    && entries@[j].projectile.owner == p.b) || (entries@[j].id == p.b
                    && entries@[j].projectile.owner == p.a))),
        decreases entries@.len() - k,
    {
        let e = entries[k];
        if e.alive && ((e.id == p.a && e.projectile.owner == p.b) || (e.id == p.b
            && e.projectile.owner == p.a)) {
            return true;
        }
        k = k + 1;
    }
    false
}

/// Self-exclusion pass: drop every overlap pair that joins a live
/// projectile with its own owner, keeping the rest in order.
pub fn filter_collisions(entries: &Vec<ProjectileEntry>, pairs: &Vec<OverlapPair>) -> (kept: Vec<
    OverlapPair,
>)
    ensures
        kept@ == spec_filter_pairs(entries@, pairs@),
{
    let mut kept: Vec<OverlapPair> = Vec::new();
    let mut j: usize = 0;
    while j < pairs.len()
        invariant
            0 <= j <= pairs@.len(),
            kept@ == spec_filter_pairs(entries@, pairs@.subrange(0, j as int)),
        decreases pairs@.len() - j,
    {
        let p = pairs[j];
        proof {
            assert(pairs@.subrange(0, j + 1).drop_last() =~= pairs@.subrange(0, j as int));
            assert(pairs@.subrange(0, j + 1).last() == pairs@[j as int]);
        }
        if !is_self_pair(entries, p) {
            kept.push(p);
        }
        j = j + 1;
    }
    proof {
        assert(pairs@.subrange(0, pairs@.len() as int) =~= pairs@);
    }
    kept
}

/// The first entity the given projectile overlaps, in the order the
/// physics collaborator reported the pairs; absence if it overlaps
/// nothing.
pub open spec fn spec_first_target(pairs: Seq<OverlapPair>, id: u64) -> Option<u64>
    decreases pairs.len(),
{
    if pairs.len() == 0 {
        None
    } else if pairs[0].a == id {
        Some(pairs[0].b)
    } else if pairs[0].b == id {
        Some(pairs[0].a)
    } else {
        spec_first_target(pairs.drop_first(), id)
    }
}

/// A found target is witnessed by some pair of the input.
pub proof fn lemma_first_target_witness(pairs: Seq<OverlapPair>, id: u64)
    requires
        spec_first_target(pairs, id) is Some,
    ensures
        exists|j: int|
            0 <= j < pairs.len() && ((#[trigger] pairs[j]).a == id && pairs[j].b
                == spec_first_target(pairs, id)->Some_0 || pairs[j].b == id && pairs[j].a
                == spec_first_target(pairs, id)->Some_0),
    decreases pairs.len(),
{
    if pairs.len() > 0 {
        if pairs[0].a == id || pairs[0].b == id {
            assert(pairs[0] == pairs[0]);
        } else {
            lemma_first_target_witness(pairs.drop_first(), id);
            let j = choose|j: int|
                0 <= j < pairs.drop_first().len() && ((#[trigger] pairs.drop_first()[j]).a == id
                    && pairs.drop_first()[j].b == spec_first_target(pairs.drop_first(), id)->Some_0
                    || pairs.drop_first()[j].b == id && pairs.drop_first()[j].a
                    == spec_first_target(pairs.drop_first(), id)->Some_0);
            assert(pairs[j + 1] == pairs.drop_first()[j]);
        }
    }
}

fn first_overlap_target(pairs: &Vec<OverlapPair>, id: u64) -> (r: Option<u64>)
    ensures
        r == spec_first_target(pairs@, id),
{
    let mut j: usize = 0;
    proof {
        assert(pairs@.skip(0) =~= pairs@);
    }
    while j < pairs.len()
        invariant
            0 <= j <= pairs@.len(),
            spec_first_target(pairs@, id) == spec_first_target(pairs@.skip(j as int), id),
        decreases pairs@.len() - j,
    {
        let p = pairs[j];
        proof {
            assert(pairs@.skip(j as int)[0] == pairs@[j as int]);
            assert(pairs@.skip(j as int).drop_first() =~= pairs@.skip(j + 1));
        }
        if p.a == id {
            return Some(p.b);
        }
        if p.b == id {
            return Some(p.a);
        }
        j = j + 1;
    }
    proof {
        assert(pairs@.skip(pairs@.len() as int).len() == 0);
    }
    None
}

/// What the collision pass does to one arena entry: a live projectile
/// that overlaps anything (after filtering) is despawned; everything
/// else is untouched.
pub open spec fn spec_resolve_entry(e: ProjectileEntry, pairs: Seq<OverlapPair>) -> ProjectileEntry {
    if e.alive && spec_first_target(pairs, e.id) is Some {
        ProjectileEntry { alive: false, ..e }
    } else {
        e
    }
}

/// The collision events one pass raises, in arena order: one per live
/// projectile that overlaps something, carrying its first overlap
/// partner.
pub open spec fn spec_collision_events(
    entries: Seq<ProjectileEntry>,
    pairs: Seq<OverlapPair>,
) -> Seq<ProjectileCollisionEvent>
    decreases entries.len(),
{
    if entries.len() == 0 {
        Seq::empty()
    } else {
        let rest = spec_collision_events(entries.drop_last(), pairs);
        let e = entries.last();
        if e.alive && spec_first_target(pairs, e.id) is Some {
            rest.push(
                ProjectileCollisionEvent {
                    projectile: e.id,
                    target: spec_first_target(pairs, e.id)->Some_0,
                },
            )
        } else {
            rest
        }
    }
}

/// Collision pass over the arena: despawn each live projectile that
/// still overlaps something and raise exactly one collision event for
/// it, naming its first overlap partner. Projectiles with several
/// simultaneous overlaps are despawned once, not several times; dead
/// entries are ignored.
pub fn handle_collisions(
    entries: &mut Vec<ProjectileEntry>,
    pairs: &Vec<OverlapPair>,
    events: &mut Vec<ProjectileCollisionEvent>,
)
    ensures
        final(entries)@.len() == old(entries)@.len(),
        forall|k: int|
            0 <= k < old(entries)@.len() ==> final(entries)@[k] == spec_resolve_entry(
                old(entries)@[k],
                pairs@,
            ),
        final(events)@ == old(events)@ + spec_collision_events(old(entries)@, pairs@),
{
    let ghost entries0 = entries@;
    let ghost events0 = events@;
    let mut i: usize = 0;
    while i < entries.len()
        invariant
            0 <= i <= entries0.len(),
            entries@.len() == entries0.len(),
            forall|k: int|
                0 <= k < i ==> entries@[k] == spec_resolve_entry(entries0[k], pairs@),
            forall|k: int| i <= k < entries0.len() ==> entries@[k] == entries0[k],
            events@ == events0 + spec_collision_events(entries0.subrange(0, i as int), pairs@),
        decreases entries0.len() - i,
    {
        let e = entries[i];
        proof {
            assert(entries0.subrange(0, i + 1).drop_last() =~= entries0.subrange(0, i as int));
            assert(entries0.subrange(0, i + 1).last() == entries0[i as int]);
        }
        if e.alive {
            match first_overlap_target(pairs, e.id) {
                Some(target) => {
                    events.push(ProjectileCollisionEvent { projectile: e.id, target });
                    entries.set(i, ProjectileEntry { alive: false, ..e });
                },
                None => {},
            }
        }
        i = i + 1;
    }
    proof {
        assert(entries0.subrange(0, entries0.len() as int) =~= entries0);
    }
}

/// The position the physics collaborator reported for the given entity
/// this tick, if any (first match in report order).
pub open spec fn spec_pos_of(positions: Seq<(u64, Vec3Milli)>, id: u64) -> Option<Vec3Milli>
    decreases positions.len(),
{
    if positions.len() == 0 {
        None
    } else if positions[0].0 == id {
        Some(positions[0].1)
    } else {
        spec_pos_of(positions.drop_first(), id)
    }
}

fn pos_of(positions: &Vec<(u64, Vec3Milli)>, id: u64) -> (r: Option<Vec3Milli>)
    ensures
        r == spec_pos_of(positions@, id),
{
    let mut j: usize = 0;
    proof {
        assert(positions@.skip(0) =~= positions@);
    }
    while j < positions.len()
        invariant
            0 <= j <= positions@.len(),
            spec_pos_of(positions@, id) == spec_pos_of(positions@.skip(j as int), id),
        decreases positions@.len() - j,
    {
        proof {
            assert(positions@.skip(j as int)[0] == positions@[j as int]);
            assert(positions@.skip(j as int).drop_first() =~= positions@.skip(j + 1));
        }
        if positions[j].0 == id {
            return Some(positions[j].1);
        }
        j = j + 1;
    }
    proof {
        assert(positions@.skip(positions@.len() as int).len() == 0);
    }
    None
}

/// A live projectile whose reported position lies strictly beyond its
/// maximum travel distance from its spawn origin.
pub open spec fn spec_expired(e: ProjectileEntry, positions: Seq<(u64, Vec3Milli)>) -> bool {
    &&& e.alive
    &&& match spec_pos_of(positions, e.id) {
        Some(p) => spec_dist_sq(e.projectile.origin, p) > e.projectile.max_distance
            * e.projectile.max_distance,
        None => false,
    }
}

/// What the expiry pass does to one entry: an expired projectile is
/// despawned, everything else is untouched.
pub open spec fn spec_expire_entry(
    e: ProjectileEntry,
    positions: Seq<(u64, Vec3Milli)>,
) -> ProjectileEntry {
    if spec_expired(e, positions) {
        ProjectileEntry { alive: false, ..e }
    } else {
        e
    }
}

/// The fizzle events one expiry pass raises, in arena order.
pub open spec fn spec_fizzle_events(
    entries: Seq<ProjectileEntry>,
    positions: Seq<(u64, Vec3Milli)>,
) -> Seq<ProjectileFizzleEvent>
    decreases entries.len(),
{
    if entries.len() == 0 {
        Seq::empty()
    } else {
        let rest = spec_fizzle_events(entries.drop_last(), positions);
        if spec_expired(entries.last(), positions) {
            rest.push(ProjectileFizzleEvent { projectile: entries.last().id })
        } else {
            rest
        }
    }
}

/// Expiry pass: despawn each live projectile that has travelled beyond
/// its maximum distance and raise exactly one fizzle event for it. This
/// is the "expired without effect" path, distinct from a collision
/// despawn; dead entries are ignored.
pub fn check_projectile_despawn(
    entries: &mut Vec<ProjectileEntry>,
    positions: &Vec<(u64, Vec3Milli)>,
    events: &mut Vec<ProjectileFizzleEvent>,
)
    requires
        spec_entries_wf(old(entries)@),
        spec_positions_wf(positions@),
    ensures
        final(entries)@.len() == old(entries)@.len(),
        forall|k: int|
            0 <= k < old(entries)@.len() ==> final(entries)@[k] == spec_expire_entry(
                old(entries)@[k],
                positions@,
            ),
        final(events)@ == old(events)@ + spec_fizzle_events(old(entries)@, positions@),
{
    let ghost entries0 = entries@;
    let ghost events0 = events@;
    let mut i: usize = 0;
    while i < entries.len()
        invariant
            0 <= i <= entries0.len(),
            entries@.len() == entries0.len(),
            spec_entries_wf(entries0),
            spec_positions_wf(positions@),
            forall|k: int|
                0 <= k < i ==> entries@[k] == spec_expire_entry(entries0[k], positions@),
            forall|k: int| i <= k < entries0.len() ==> entries@[k] == entries0[k],
            events@ == events0 + spec_fizzle_events(entries0.subrange(0, i as int), positions@),
        decreases entries0.len() - i,
    {
        let e = entries[i];
        proof {
            assert(entries0.subrange(0, i + 1).drop_last() =~= entries0.subrange(0, i as int));
            assert(entries0.subrange(0, i + 1).last() == entries0[i as int]);
            assert(entries0[i as int].wf());
        }
        if e.alive {
            match pos_of(positions, e.id) {
                Some(p) => {
                    proof {
                        lemma_pos_of_in_bounds(positions@, e.id);
                        assert(0 <= e.projectile.max_distance * e.projectile.max_distance
                            <= 4_000_000_000_000) by (nonlinear_arith)
                            requires 0 <= e.projectile.max_distance <= 2_000_000;
                    }
                    let d = dist_sq(e.projectile.origin, p);
                    if d > e.projectile.max_distance * e.projectile.max_distance {
                        events.push(ProjectileFizzleEvent { projectile: e.id });
                        entries.set(i, ProjectileEntry { alive: false, ..e });
                    }
                },
                None => {},
            }
        }
        i = i + 1;
    }
    proof {
        assert(entries0.subrange(0, entries0.len() as int) =~= entries0);
    }
}

/// Every collision event is witnessed by a live arena entry whose first
/// overlap partner is the event's target.
pub proof fn lemma_collision_event_witness(
    entries: Seq<ProjectileEntry>,
    pairs: Seq<OverlapPair>,
    i: int,
)
    requires
        0 <= i < spec_collision_events(entries, pairs).len(),
    ensures
        exists|j: int|
            0 <= j < entries.len() && (#[trigger] entries[j]).alive && entries[j].id
                == spec_collision_events(entries, pairs)[i].projectile && spec_first_target(
                pairs,
                entries[j].id,
            ) == Some(spec_collision_events(entries, pairs)[i].target),
    decreases entries.len(),
{
    let evs = spec_collision_events(entries, pairs);
    let rest = spec_collision_events(entries.drop_last(), pairs);
    if i < rest.len() {
        lemma_collision_event_witness(entries.drop_last(), pairs, i);
        let j = choose|j: int|
            0 <= j < entries.drop_last().len() && (#[trigger] entries.drop_last()[j]).alive
                && entries.drop_last()[j].id == rest[i].projectile && spec_first_target(
                pairs,
                entries.drop_last()[j].id,
            ) == Some(rest[i].target);
        assert(entries[j] == entries.drop_last()[j]);
    } else {
        assert(entries.last() == entries[entries.len() - 1]);
    }
}

/// Every fizzle event is witnessed by an expired arena entry.
pub proof fn lemma_fizzle_event_witness(
    entries: Seq<ProjectileEntry>,
    positions: Seq<(u64, Vec3Milli)>,
    i: int,
)
    requires
        0 <= i < spec_fizzle_events(entries, positions).len(),
    ensures
        exists|j: int|
            0 <= j < entries.len() && spec_expired(#[trigger] entries[j], positions)
                && entries[j].id == spec_fizzle_events(entries, positions)[i].projectile,
    decreases entries.len(),
{
    let rest = spec_fizzle_events(entries.drop_last(), positions);
    if i < rest.len() {
        lemma_fizzle_event_witness(entries.drop_last(), positions, i);
        let j = choose|j: int|
            0 <= j < entries.drop_last().len() && spec_expired(
                #[trigger] entries.drop_last()[j],
                positions,
            ) && entries.drop_last()[j].id == rest[i].projectile;
        assert(entries[j] == entries.drop_last()[j]);
    } else {
        assert(entries.last() == entries[entries.len() - 1]);
    }
}

/// Every expired entry gets its fizzle event: expiry never silently
/// swallows a despawn.
pub proof fn lemma_fizzle_event_complete(
    entries: Seq<ProjectileEntry>,
    positions: Seq<(u64, Vec3Milli)>,
    j: int,
)
    requires
        0 <= j < entries.len(),
        spec_expired(entries[j], positions),
    ensures
        exists|i: int|
            0 <= i < spec_fizzle_events(entries, positions).len()
                && (#[trigger] spec_fizzle_events(entries, positions)[i]).projectile
                == entries[j].id,
    decreases entries.len(),
{
    let evs = spec_fizzle_events(entries, positions);
    let rest = spec_fizzle_events(entries.drop_last(), positions);
    if j == entries.len() - 1 {
        assert(evs[evs.len() - 1].projectile == entries[j].id);
    } else {
        assert(entries.drop_last()[j] == entries[j]);
        lemma_fizzle_event_complete(entries.drop_last(), positions, j);
        let i = choose|i: int|
            0 <= i < rest.len() && (#[trigger] rest[i]).projectile == entries.drop_last()[j].id;
        assert(evs[i].projectile == entries[j].id);
    }
}

/// Self-collision exclusion: a collision event raised after the filter
/// pass never names the owner of the projectile that raised it, for any
/// live entry carrying that projectile's id.
pub proof fn lemma_no_self_collision_event(
    entries: Seq<ProjectileEntry>,
    pairs: Seq<OverlapPair>,
    i: int,
    k: int,
)
    requires
        0 <= i < spec_collision_events(entries, spec_filter_pairs(entries, pairs)).len(),
        0 <= k < entries.len(),
        entries[k].alive,
        entries[k].id == spec_collision_events(entries, spec_filter_pairs(entries, pairs))[i].projectile,
    ensures
        spec_collision_events(entries, spec_filter_pairs(entries, pairs))[i].target
            != entries[k].projectile.owner,
{
    let filtered = spec_filter_pairs(entries, pairs);
    let ev = spec_collision_events(entries, filtered)[i];
    lemma_collision_event_witness(entries, filtered, i);
    assert(spec_first_target(filtered, ev.projectile) == Some(ev.target));
    lemma_first_target_witness(filtered, ev.projectile);
    let j = choose|j: int|
        0 <= j < filtered.len() && ((#[trigger] filtered[j]).a == ev.projectile && filtered[j].b
            == ev.target || filtered[j].b == ev.projectile && filtered[j].a == ev.target);
    lemma_filter_pairs_sound(entries, pairs, j);
    if ev.target == entries[k].projectile.owner {
        assert(spec_is_self_pair(entries, filtered[j]));
    }
}

/// The two despawn paths are mutually exclusive within one tick: when
/// the collision pass runs first, no projectile both collides and
/// fizzles — a projectile that times out and collides in the same step
/// counts as a collision, never as a fizzle.
pub proof fn lemma_despawn_paths_exclusive(
    entries: Seq<ProjectileEntry>,
    filtered: Seq<OverlapPair>,
    positions: Seq<(u64, Vec3Milli)>,
    resolved: Seq<ProjectileEntry>,
    i: int,
    j: int,
)
    requires
        resolved.len() == entries.len(),
        forall|k: int|
            0 <= k < entries.len() ==> resolved[k] == spec_resolve_entry(
                #[trigger] entries[k],
                filtered,
            ),
        0 <= i < spec_collision_events(entries, filtered).len(),
        0 <= j < spec_fizzle_events(resolved, positions).len(),
    ensures
        spec_collision_events(entries, filtered)[i].projectile != spec_fizzle_events(
            resolved,
            positions,
        )[j].projectile,
{
    let coll_id = spec_collision_events(entries, filtered)[i].projectile;
    let fizz_id = spec_fizzle_events(resolved, positions)[j].projectile;
    lemma_collision_event_witness(entries, filtered, i);
    lemma_fizzle_event_witness(resolved, positions, j);
    let k2 = choose|k2: int|
        0 <= k2 < resolved.len() && spec_expired(#[trigger] resolved[k2], positions)
            && resolved[k2].id == fizz_id;
    assert(resolved[k2] == spec_resolve_entry(entries[k2], filtered));
    if coll_id == fizz_id {
        // the fizzle witness is still live after the collision pass, so
        // its id found no overlap partner — yet the collision witness
        // with the same id found one
        assert(spec_first_target(filtered, fizz_id) is None);
    }
}

/// A despawned projectile is inert: once no live entry carries an id,
/// neither pass raises any further event for it — despawn happens at
/// most once.
pub proof fn lemma_dead_projectile_inert(
    entries: Seq<ProjectileEntry>,
    pairs: Seq<OverlapPair>,
    positions: Seq<(u64, Vec3Milli)>,
    id: u64,
)
    requires
        forall|k: int| 0 <= k < entries.len() && (#[trigger] entries[k]).id == id
            ==> !entries[k].alive,
    ensures
        forall|i: int|
            0 <= i < spec_collision_events(entries, pairs).len() ==> (#[trigger]
            spec_collision_events(entries, pairs)[i]).projectile != id,
        forall|i: int|
            0 <= i < spec_fizzle_events(entries, positions).len() ==> (#[trigger]
            spec_fizzle_events(entries, positions)[i]).projectile != id,
{
    assert forall|i: int|
        0 <= i < spec_collision_events(entries, pairs).len() implies (#[trigger]
    spec_collision_events(entries, pairs)[i]).projectile != id by {
        lemma_collision_event_witness(entries, pairs, i);
    }
    assert forall|i: int|
        0 <= i < spec_fizzle_events(entries, positions).len() implies (#[trigger]
    spec_fizzle_events(entries, positions)[i]).projectile != id by {
        lemma_fizzle_event_witness(entries, positions, i);
    }
}

/// A position found in a well-formed report is in bounds.
proof fn lemma_pos_of_in_bounds(positions: Seq<(u64, Vec3Milli)>, id: u64)
    requires
        spec_positions_wf(positions),
        spec_pos_of(positions, id) is Some,
    ensures
        spec_pos_of(positions, id)->Some_0.in_bounds(),
    decreases positions.len(),
{
    if positions.len() > 0 {
        if positions[0].0 == id {
        } else {
            assert(spec_positions_wf(positions.drop_first())) by {
                assert(forall|k: int|
                    0 <= k < positions.drop_first().len() ==> (#[trigger] positions.drop_first()[k])
                        == positions[k + 1]);
            }
            lemma_pos_of_in_bounds(positions.drop_first(), id);
        }
    }
}

} // verus!
