//! Transformation State Machine: a one-shot, one-way toggle on the
//! player. On an "activate" press while still untransformed it sets the
//! has-transformed flag, imposes the longer transformation cooldown
//! (overriding any movement cooldown in progress), and re-skins every
//! head equipment slot. There is no transition back.

use vstd::prelude::*;

use crate::state::EquipmentSlot;
use crate::state::HENSHIN_BASE_COOLDOWN_MS;
use crate::state::Player;
use crate::state::PlayerModel;
use crate::state::SlotKind;
use crate::state::TRANSFORMED_HEAD_SPRITE_INDEX;

verus! {

/// One equipment slot after the transformation: a head slot is re-skinned
/// to the transformed sprite; the discriminant set is closed, so nothing
/// else exists to touch.
pub open spec fn transformed_slot(s: EquipmentSlot) -> EquipmentSlot {
    match s.kind {
        SlotKind::Head => EquipmentSlot {
            kind: s.kind,
            sprite_index: TRANSFORMED_HEAD_SPRITE_INDEX,
        },
    }
}

/// The whole slot list after the transformation.
pub open spec fn transformed_slots(slots: Seq<EquipmentSlot>) -> Seq<EquipmentSlot> {
    slots.map(|i: int, s: EquipmentSlot| transformed_slot(s))
}

/// What the transformation state machine makes of the player this tick:
/// only an "activate" press in the untransformed state does anything, and
/// then it sets the flag, imposes the transformation cooldown, and
/// re-skins the slots, atomically within the tick.
pub open spec fn henshin_step(p: PlayerModel, activate_pressed: bool) -> PlayerModel {
    if activate_pressed && !p.henshin {
        PlayerModel {
            henshin: true,
            cooldown_ms: HENSHIN_BASE_COOLDOWN_MS as int,
            slots: transformed_slots(p.slots),
            ..p
        }
    } else {
        p
    }
}

/// The transition is idempotent on repeat: once a press has transformed
/// the player, any later "activate" press — in the same shape or any
/// other — has no observable effect: no cooldown reset, no sprite-index
/// change.
pub proof fn lemma_henshin_idempotent(p: PlayerModel, again_pressed: bool)
    ensures
        henshin_step(henshin_step(p, true), again_pressed) == henshin_step(p, true),
{
}

/// Applies one tick of the transformation state machine to the player.
///
/// The standalone clause restates the one-way law: an already transformed
/// player is left exactly as it was, whatever is pressed.
pub fn apply_henshin(player: &mut Player, activate_pressed: bool)
    ensures
        final(player)@ == henshin_step(old(player)@, activate_pressed),
        old(player)@.henshin ==> final(player)@ == old(player)@,
{
    let ghost p0 = player@;
    if activate_pressed && !player.henshin {
        player.henshin = true;
        player.cooldown_ms = HENSHIN_BASE_COOLDOWN_MS;
        let n = player.slots.len();
        let mut i: usize = 0;
        while i < n
            invariant
                n == player.slots@.len(),
                n == p0.slots.len(),
                i <= n,
                player.henshin,
                player.cooldown_ms == HENSHIN_BASE_COOLDOWN_MS,
                player@.x == p0.x,
                player@.y == p0.y,
                forall|j: int| 0 <= j < i ==> player.slots@[j] == transformed_slot(p0.slots[j]),
                forall|j: int| i <= j < n ==> player.slots@[j] == p0.slots[j],
            decreases n - i,
        {
            let slot = player.slots[i];
            match slot.kind {
                SlotKind::Head => {
                    player.slots.set(
                        i,
                        EquipmentSlot {
                            kind: SlotKind::Head,
                            sprite_index: TRANSFORMED_HEAD_SPRITE_INDEX,
                        },
                    );
                },
            }
            i = i + 1;
        }
        assert(player.slots@ =~= transformed_slots(p0.slots));
        assert(player@ =~= henshin_step(p0, activate_pressed));
    } else {
        assert(player@ =~= henshin_step(p0, activate_pressed));
    }
}

} // verus!
