//! NPC Lifecycle Controller: spawns an NPC at the player's current cell
//! on command, and despawns every NPC — together with the equipment
//! slots it owns — on command.
//!
//! Slots live inside their owning NPC, so despawning is one atomic bulk
//! removal: no NPC can survive partially and no slot can be orphaned.

use vstd::prelude::*;

use crate::state::EquipmentSlot;
use crate::state::NPC_HEAD_SPRITE_INDEX;
use crate::state::Npc;
use crate::state::NpcModel;
use crate::state::SlotKind;

verus! {

/// The model of a freshly spawned NPC: at the given position, cooldown
/// zero, owning exactly one head slot at the spawn-time default sprite —
/// the untransformed visual state, whatever the player's state is.
pub open spec fn spawned_npc(x: int, y: int) -> NpcModel {
    NpcModel {
        x: x,
        y: y,
        cooldown_ms: 0,
        slots: seq![
            EquipmentSlot { kind: SlotKind::Head, sprite_index: NPC_HEAD_SPRITE_INDEX },
        ],
    }
}

/// Creates one NPC at the given position (the player's cell, already in
/// whole pixels) and appends it; every existing NPC is left untouched.
pub fn spawn_npc(npcs: &mut Vec<Npc>, x: i64, y: i64)
    ensures
        final(npcs)@.len() == old(npcs)@.len() + 1,
        forall|i: int| 0 <= i < old(npcs)@.len() ==> #[trigger] final(npcs)@[i] == old(npcs)@[i],
        final(npcs)@[old(npcs)@.len() as int]@ == spawned_npc(x as int, y as int),
{
    let mut slots: Vec<EquipmentSlot> = Vec::new();
    slots.push(EquipmentSlot { kind: SlotKind::Head, sprite_index: NPC_HEAD_SPRITE_INDEX });
    let npc = Npc { x, y, cooldown_ms: 0, slots };
    npcs.push(npc);
    assert(npcs@[npcs@.len() - 1]@ =~= spawned_npc(x as int, y as int));
}

/// Destroys every NPC and, with it, every equipment slot it owns: one
/// atomic bulk operation that leaves no NPC and no orphaned slot behind.
pub fn despawn_all_npcs(npcs: &mut Vec<Npc>)
    ensures
        final(npcs)@.len() == 0,
{
    npcs.clear();
}

} // verus!
