//! Grid Movement Controller: while the player's cooldown is at zero, held
//! directional input moves the player by exactly one grid cell per axis
//! and resets the cooldown to the movement base duration.
//!
//! The vertical axis is evaluated first ("up" wins over "down"), then the
//! horizontal axis ("right" wins over "left"), independently; moving on
//! both axes in one tick still costs the single cooldown reset.

use vstd::prelude::*;

use crate::state::GRID_SIZE_PX;
use crate::state::InputSnapshot;
use crate::state::MOVEMENT_BASE_COOLDOWN_MS;
use crate::state::Player;
use crate::state::PlayerModel;
use crate::state::coord_ok;

verus! {

/// Signed pixel offset the vertical input asks for: one cell up, one cell
/// down, or none.
pub open spec fn vertical_offset(input: InputSnapshot) -> int {
    if input.up_held {
        GRID_SIZE_PX as int
    } else if input.down_held {
        -(GRID_SIZE_PX as int)
    } else {
        0
    }
}

/// Signed pixel offset the horizontal input asks for: one cell right, one
/// cell left, or none.
pub open spec fn horizontal_offset(input: InputSnapshot) -> int {
    if input.right_held {
        GRID_SIZE_PX as int
    } else if input.left_held {
        -(GRID_SIZE_PX as int)
    } else {
        0
    }
}

/// Whether any directional input is held, i.e. whether a ready player
/// takes a move this tick.
pub open spec fn any_direction_held(input: InputSnapshot) -> bool {
    input.up_held || input.down_held || input.left_held || input.right_held
}

/// What the movement controller makes of the player this tick: with the
/// cooldown still running nothing happens; at zero the held directions
/// are applied and any move resets the cooldown to the movement base
/// duration.
pub open spec fn movement_step(p: PlayerModel, input: InputSnapshot) -> PlayerModel {
    if p.cooldown_ms != 0 {
        p
    } else if any_direction_held(input) {
        PlayerModel {
            x: p.x + horizontal_offset(input),
            y: p.y + vertical_offset(input),
            cooldown_ms: MOVEMENT_BASE_COOLDOWN_MS as int,
            ..p
        }
    } else {
        p
    }
}

/// Applies one tick of the movement controller to the player.
///
/// The two standalone clauses restate the controller's laws: a player
/// whose cooldown is still running never moves, and any move — one axis
/// or both — leaves the cooldown at exactly the movement base duration.
pub fn apply_movement(player: &mut Player, input: InputSnapshot)
    requires
        coord_ok(old(player)@.x),
        coord_ok(old(player)@.y),
    ensures
        final(player)@ == movement_step(old(player)@, input),
        old(player)@.cooldown_ms > 0 ==> final(player)@.x == old(player)@.x
            && final(player)@.y == old(player)@.y,
        (final(player)@.x != old(player)@.x || final(player)@.y != old(player)@.y)
            ==> final(player)@.cooldown_ms == MOVEMENT_BASE_COOLDOWN_MS as int,
{
    let ghost p0 = player@;
    if player.cooldown_ms == 0 {
        let mut moved = false;
        if input.up_held {
            player.y = player.y + GRID_SIZE_PX;
            moved = true;
        } else if input.down_held {
            player.y = player.y - GRID_SIZE_PX;
            moved = true;
        }
        if input.right_held {
            player.x = player.x + GRID_SIZE_PX;
            moved = true;
        } else if input.left_held {
            player.x = player.x - GRID_SIZE_PX;
            moved = true;
        }
        if moved {
            player.cooldown_ms = MOVEMENT_BASE_COOLDOWN_MS;
        }
        assert(player@ =~= movement_step(p0, input));
    } else {
        assert(player@ =~= movement_step(p0, input));
    }
}

} // verus!
