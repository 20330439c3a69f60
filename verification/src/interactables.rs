//! The interactable pickup protocol: ground-loot volumes in the arena,
//! and the edge-triggered interact action that negotiates with the
//! loadout. On success the world item is removed in the same step; on
//! failure it is left untouched and nothing is retried.

use vstd::prelude::*;

use crate::inventory::{Inventory, InventoryItem};

verus! {

/// The closed set of interactable kinds.
#[derive(Debug, Copy, Clone, PartialEq, Eq, Structural)]
pub enum InteractableType {
    GroundLoot,
}

/// One-shot signal: an interact intent resolved against a world entity.
#[derive(Debug, Copy, Clone, PartialEq, Eq, Structural)]
pub struct InteractEvent {
    pub target: u64,
    pub target_type: InteractableType,
}

/// One ground-loot arena slot: the world entity id, the immutable item
/// it grants, and whether it still stands in the world. A successful
/// pickup clears `alive` exactly once.
#[derive(Debug, Copy, Clone, PartialEq, Eq, Structural)]
pub struct GroundLootEntry {
    pub id: u64,
    pub item: InventoryItem,
    pub alive: bool,
}

/// The first live ground-loot entry carrying the given id, if any.
pub open spec fn spec_live_loot_at(loot: Seq<GroundLootEntry>, id: u64) -> Option<int>
    decreases loot.len(),
{
    if loot.len() == 0 {
        None
    } else if loot[0].alive && loot[0].id == id {
        Some(0int)
    } else {
        match spec_live_loot_at(loot.drop_first(), id) {
            None => None,
            Some(k) => Some(k + 1),
        }
    }
}

/// A found index points at a live entry with the id.
pub proof fn lemma_live_loot_at_found(loot: Seq<GroundLootEntry>, id: u64)
    requires
        spec_live_loot_at(loot, id) is Some,
    ensures
        0 <= spec_live_loot_at(loot, id)->Some_0 < loot.len(),
        loot[spec_live_loot_at(loot, id)->Some_0].alive,
        loot[spec_live_loot_at(loot, id)->Some_0].id == id,
    decreases loot.len(),
{
    if loot.len() > 0 {
        if loot[0].alive && loot[0].id == id {
        } else {
            lemma_live_loot_at_found(loot.drop_first(), id);
        }
    }
}

/// If nothing in the first `k` entries is a live match, the search
/// result over the whole arena is the search result past `k`, shifted.
proof fn lemma_live_loot_at_skip(loot: Seq<GroundLootEntry>, id: u64, k: int)
    requires
        0 <= k <= loot.len(),
        forall|j: int| 0 <= j < k ==> !((#[trigger] loot[j]).alive && loot[j].id == id),
    ensures
        spec_live_loot_at(loot, id) == match spec_live_loot_at(loot.skip(k), id) {
            None => None::<int>,
            Some(i) => Some(i + k),
        },
    decreases k,
{
    if k == 0 {
        assert(loot.skip(0) =~= loot);
    } else {
        lemma_live_loot_at_skip(loot.drop_first(), id, k - 1);
        assert(loot.drop_first().skip(k - 1) =~= loot.skip(k));
        assert(forall|j: int|
            0 <= j < k - 1 ==> (#[trigger] loot.drop_first()[j]) == loot[j + 1]);
    }
}

fn live_loot_index(loot: &Vec<GroundLootEntry>, id: u64) -> (r: Option<usize>)
    ensures
        match r {
            Some(k) => spec_live_loot_at(loot@, id) == Some(k as int),
            None => spec_live_loot_at(loot@, id) is None,
        },
{
    let mut k: usize = 0;
    while k < loot.len()
        invariant
            0 <= k <= loot@.len(),
            forall|j: int| 0 <= j < k ==> !((#[trigger] loot@[j]).alive && loot@[j].id == id),
        decreases loot@.len() - k,
    {
        let e = loot[k];
        if e.alive && e.id == id {
            proof {
                lemma_live_loot_at_skip(loot@, id, k as int);
                assert(loot@.skip(k as int)[0] == loot@[k as int]);
            }
            return Some(k);
        }
        k = k + 1;
    }
    proof {
        lemma_live_loot_at_skip(loot@, id, loot@.len() as int);
        assert(loot@.skip(loot@.len() as int).len() == 0);
    }
    None
}

/// The first entity in the overlap set that is a live interactable, in
/// the order the physics collaborator reported the overlaps. No
/// stronger priority (such as nearest-wins) is promised among
/// simultaneous candidates.
pub open spec fn spec_first_interactable(
    loot: Seq<GroundLootEntry>,
    overlaps: Seq<u64>,
) -> Option<u64>
    decreases overlaps.len(),
{
    if overlaps.len() == 0 {
        None
    } else if spec_live_loot_at(loot, overlaps[0]) is Some {
        Some(overlaps[0])
    } else {
        spec_first_interactable(loot, overlaps.drop_first())
    }
}

/// A found interactable is indeed a live ground-loot entry.
pub proof fn lemma_first_interactable_live(loot: Seq<GroundLootEntry>, overlaps: Seq<u64>)
    requires
        spec_first_interactable(loot, overlaps) is Some,
    ensures
        spec_live_loot_at(loot, spec_first_interactable(loot, overlaps)->Some_0) is Some,
    decreases overlaps.len(),
{
    if overlaps.len() > 0 {
        if spec_live_loot_at(loot, overlaps[0]) is Some {
        } else {
            lemma_first_interactable_live(loot, overlaps.drop_first());
        }
    }
}

fn first_interactable(loot: &Vec<GroundLootEntry>, overlaps: &Vec<u64>) -> (r: Option<u64>)
    ensures
        r == spec_first_interactable(loot@, overlaps@),
{
    let mut j: usize = 0;
    proof {
        assert(overlaps@.skip(0) =~= overlaps@);
    }
    while j < overlaps.len()
        invariant
            0 <= j <= overlaps@.len(),
            spec_first_interactable(loot@, overlaps@) == spec_first_interactable(
                loot@,
                overlaps@.skip(j as int),
            ),
        decreases overlaps@.len() - j,
    {
        proof {
            assert(overlaps@.skip(j as int)[0] == overlaps@[j as int]);
            assert(overlaps@.skip(j as int).drop_first() =~= overlaps@.skip(j + 1));
        }
        let id = overlaps[j];
        if live_loot_index(loot, id).is_some() {
            return Some(id);
        }
        j = j + 1;
    }
    proof {
        assert(overlaps@.skip(overlaps@.len() as int).len() == 0);
    }
    None
}

/// What one interact resolution does: the first overlapped live
/// interactable offers its payload to the loadout; acceptance removes
/// the world entry in the same step and raises one interact event,
/// rejection (loadout full) leaves the world untouched so the player may
/// re-issue the intent later.
pub open spec fn spec_handle_interact(
    loot: Seq<GroundLootEntry>,
    inv: crate::inventory::InventoryView,
    overlaps: Seq<u64>,
) -> (Seq<GroundLootEntry>, crate::inventory::InventoryView, Option<InteractEvent>) {
    match spec_first_interactable(loot, overlaps) {
        None => (loot, inv, None),
        Some(id) => {
            let k = spec_live_loot_at(loot, id)->Some_0;
            let added = inv.spec_add_item(loot[k].item);
            if added.1 {
                (
                    loot.update(k, GroundLootEntry { alive: false, ..loot[k] }),
                    added.0,
                    Some(InteractEvent { target: id, target_type: InteractableType::GroundLoot }),
                )
            } else {
                (loot, inv, None)
            }
        },
    }
}

/// Resolve one edge-triggered interact intent against the overlap set of
/// the player's sensor volume. Returns the one-shot event naming the
/// world entity that was picked up and removed, if any.
pub fn handle_interact(
    loot: &mut Vec<GroundLootEntry>,
    inventory: &mut Inventory,
    overlaps: &Vec<u64>,
) -> (picked: Option<InteractEvent>)
    ensures
        (final(loot)@, final(inventory)@, picked) == spec_handle_interact(
            old(loot)@,
            old(inventory)@,
            overlaps@,
        ),
        // a failed negotiation changes nothing anywhere
        picked is None ==> final(loot)@ == old(loot)@ && final(inventory)@ == old(inventory)@,
{
    match first_interactable(loot, overlaps) {
        None => None,
        Some(id) => {
            proof {
                lemma_first_interactable_live(loot@, overlaps@);
            }
            let k = match live_loot_index(loot, id) {
                Some(k) => k,
                None => {
                    // unreachable: the found interactable is live loot
                    proof {
                        assert(false);
                    }
                    return None;
                },
            };
            proof {
                lemma_live_loot_at_found(loot@, id);
            }
            let entry = loot[k];
            if inventory.add_item(entry.item) {
                loot.set(k, GroundLootEntry { alive: false, ..entry });
                Some(InteractEvent { target: id, target_type: InteractableType::GroundLoot })
            } else {
                None
            }
        },
    }
}

} // verus!
