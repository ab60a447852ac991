//! Data model of the simulation: entities, the per-tick input snapshot,
//! and the fixed-point conventions every component shares.
//!
//! Conventions:
//! - positions are whole pixels (`i64`); one grid cell is [`GRID_SIZE_PX`]
//! - durations are milliseconds (`u64`); a cooldown can never be negative
//!   because it is unsigned, which is exactly the stored invariant
//! - zoom is in hundredths (`u32`), matching the two-decimal granularity
//!   at which zoom is compared against its clamps

use vstd::prelude::*;

verus! {

/// Side length of one grid cell, in pixels.
pub const GRID_SIZE_PX: i64 = 32;

/// Cooldown imposed by a grid move, in milliseconds.
pub const MOVEMENT_BASE_COOLDOWN_MS: u64 = 150;

/// Longer cooldown imposed by the transformation, in milliseconds.
pub const HENSHIN_BASE_COOLDOWN_MS: u64 = 1000;

/// One zoom step, in hundredths.
pub const ZOOM_STEP_CENTI: u32 = 25;

/// Lower zoom clamp, in hundredths.
pub const MIN_ZOOM_CENTI: u32 = 25;

/// Upper zoom clamp, in hundredths.
pub const MAX_ZOOM_CENTI: u32 = 75;

/// Zoom the camera starts with, in hundredths.
pub const DEFAULT_ZOOM_CENTI: u32 = 50;

/// Camera follow speed: the lerp factor per tick is
/// `CAMERA_BASE_SPEED * elapsed_seconds`.
pub const CAMERA_BASE_SPEED: u64 = 10;

/// Depth layer the camera is pinned to, above everything else.
pub const CAMERA_LAYER_Z: i64 = 999;

/// Depth layer of the player sprite.
pub const PLAYER_LAYER_Z: i64 = 20;

/// Depth layer of an NPC sprite.
pub const NPC_LAYER_Z: i64 = 10;

/// Depth layer of the background tiles.
pub const TILE_LAYER_Z: i64 = 0;

/// Half the window width in pixels; with the zoom it yields the view
/// rectangle's half-width.
pub const WINDOW_HALF_WIDTH_PX: i64 = 400;

/// Half the window height in pixels; with the zoom it yields the view
/// rectangle's half-height.
pub const WINDOW_HALF_HEIGHT_PX: i64 = 300;

/// Sprite-atlas index of the player.
pub const PLAYER_SPRITE_INDEX: u32 = 24;

/// Sprite-atlas index the player's head slot starts with.
pub const PLAYER_HEAD_SPRITE_INDEX: u32 = 33;

/// Sprite-atlas index a head slot is re-skinned to by the transformation.
pub const TRANSFORMED_HEAD_SPRITE_INDEX: u32 = 0;

/// Sprite-atlas index of an NPC.
pub const NPC_SPRITE_INDEX: u32 = 26;

/// Sprite-atlas index a freshly spawned NPC's head slot starts with.
pub const NPC_HEAD_SPRITE_INDEX: u32 = 0;

/// Sprite-atlas index of a background tile.
pub const TILE_SPRITE_INDEX: u32 = 1;

/// Lowest tile grid coordinate (inclusive), in cells.
pub const TILE_GRID_MIN: i64 = -10;

/// Highest tile grid coordinate (exclusive), in cells.
pub const TILE_GRID_MAX: i64 = 10;

/// Bound within which the simulation keeps its positions so that a tick's
/// pixel arithmetic cannot overflow. Movement itself is unconstrained by
/// design; callers simply may not hand in a state already at this machine
/// limit.
pub const COORD_LIMIT_PX: i64 = 1_000_000_000;

/// Longest elapsed time one tick may account for, in milliseconds. At this
/// bound the camera lerp factor reaches exactly 1, so the camera never
/// overshoots the player and stays within [`COORD_LIMIT_PX`].
pub const MAX_TICK_MS: u64 = 100;

/// The closed set of equipment-slot discriminants.
#[derive(Clone, Copy, PartialEq, Eq, Structural, Debug)]
pub enum SlotKind {
    Head,
}

/// A child entity of an actor: one equip-able visual overlay position.
/// Only its sprite index is ever mutated.
#[derive(Clone, Copy, PartialEq, Eq, Structural, Debug)]
pub struct EquipmentSlot {
    pub kind: SlotKind,
    pub sprite_index: u32,
}

/// Everything the simulation reads from the input devices in one tick:
/// `*_held` answers "is held", `*_pressed` answers "was pressed this tick".
#[derive(Clone, Copy, PartialEq, Eq, Structural, Debug)]
pub struct InputSnapshot {
    pub up_held: bool,
    pub down_held: bool,
    pub left_held: bool,
    pub right_held: bool,
    pub activate_pressed: bool,
    pub zoom_in_pressed: bool,
    pub zoom_out_pressed: bool,
    pub spawn_pressed: bool,
    pub despawn_pressed: bool,
}

impl Default for InputSnapshot {
    /// A tick with no input at all.
    fn default() -> (r: InputSnapshot)
        ensures
            r == InputSnapshot::released(),
    {
        InputSnapshot {
            up_held: false,
            down_held: false,
            left_held: false,
            right_held: false,
            activate_pressed: false,
            zoom_in_pressed: false,
            zoom_out_pressed: false,
            spawn_pressed: false,
            despawn_pressed: false,
        }
    }
}

impl InputSnapshot {
    /// The snapshot in which nothing is held or pressed.
    pub open spec fn released() -> InputSnapshot {
        InputSnapshot {
            up_held: false,
            down_held: false,
            left_held: false,
            right_held: false,
            activate_pressed: false,
            zoom_in_pressed: false,
            zoom_out_pressed: false,
            spawn_pressed: false,
            despawn_pressed: false,
        }
    }
}

/// The player singleton: grid-aligned position, has-transformed flag,
/// remaining cooldown, and the equipment slots it owns.
pub struct Player {
    pub x: i64,
    pub y: i64,
    pub cooldown_ms: u64,
    pub henshin: bool,
    pub slots: Vec<EquipmentSlot>,
}

/// Mathematical model of a [`Player`].
#[verifier::ext_equal]
pub struct PlayerModel {
    pub x: int,
    pub y: int,
    pub cooldown_ms: int,
    pub henshin: bool,
    pub slots: Seq<EquipmentSlot>,
}

impl View for Player {
    type V = PlayerModel;

    open spec fn view(&self) -> PlayerModel {
        PlayerModel {
            x: self.x as int,
            y: self.y as int,
            cooldown_ms: self.cooldown_ms as int,
            henshin: self.henshin,
            slots: self.slots@,
        }
    }
}

impl Default for Player {
    /// The player before setup dresses it: untransformed, ready to act,
    /// at the origin, with no equipment slot attached yet.
    fn default() -> (p: Player)
        ensures
            p@ == (PlayerModel {
                x: 0,
                y: 0,
                cooldown_ms: 0,
                henshin: false,
                slots: Seq::empty(),
            }),
    {
        let p = Player { x: 0, y: 0, cooldown_ms: 0, henshin: false, slots: Vec::new() };
        assert(p@ =~= (PlayerModel {
            x: 0,
            y: 0,
            cooldown_ms: 0,
            henshin: false,
            slots: Seq::empty(),
        }));
        p
    }
}

/// A non-player character: position, remaining cooldown, and the
/// equipment slots it owns. Slots live inside their owner, so destroying
/// the owner destroys them with it; an orphaned slot cannot exist.
pub struct Npc {
    pub x: i64,
    pub y: i64,
    pub cooldown_ms: u64,
    pub slots: Vec<EquipmentSlot>,
}

/// Mathematical model of an [`Npc`].
#[verifier::ext_equal]
pub struct NpcModel {
    pub x: int,
    pub y: int,
    pub cooldown_ms: int,
    pub slots: Seq<EquipmentSlot>,
}

impl View for Npc {
    type V = NpcModel;

    open spec fn view(&self) -> NpcModel {
        NpcModel {
            x: self.x as int,
            y: self.y as int,
            cooldown_ms: self.cooldown_ms as int,
            slots: self.slots@,
        }
    }
}

/// A static background tile: fixed position, mutable visibility.
#[derive(Clone, Copy, PartialEq, Eq, Structural, Debug)]
pub struct Tile {
    pub x: i64,
    pub y: i64,
    pub visible: bool,
}

/// The camera singleton: position in whole pixels (it is floored every
/// frame) and zoom in hundredths. Its depth stays pinned to
/// [`CAMERA_LAYER_Z`].
#[derive(Clone, Copy, PartialEq, Eq, Structural, Debug)]
pub struct Camera {
    pub x: i64,
    pub y: i64,
    pub zoom_centi: u32,
}

/// Axis-aligned view rectangle in pixels, both bounds inclusive: the sole
/// output of the camera controller that the culling filter consumes.
#[derive(Clone, Copy, PartialEq, Eq, Structural, Debug)]
pub struct ViewRect {
    pub min_x: i64,
    pub min_y: i64,
    pub max_x: i64,
    pub max_y: i64,
}

/// Whether a point lies within the rectangle, bounds inclusive.
pub open spec fn rect_contains(r: ViewRect, x: int, y: int) -> bool {
    &&& r.min_x as int <= x <= r.max_x as int
    &&& r.min_y as int <= y <= r.max_y as int
}

/// A coordinate that sits exactly on the grid.
pub open spec fn grid_aligned(c: int) -> bool {
    c % (GRID_SIZE_PX as int) == 0
}

/// A coordinate the simulation can still do a tick's arithmetic on.
pub open spec fn coord_ok(c: int) -> bool {
    -(COORD_LIMIT_PX as int) <= c <= COORD_LIMIT_PX as int
}

/// A zoom value the camera can actually reach: within the clamps and a
/// whole number of steps away from the minimum.
pub open spec fn zoom_wf(z: int) -> bool {
    &&& MIN_ZOOM_CENTI as int <= z <= MAX_ZOOM_CENTI as int
    &&& (z - MIN_ZOOM_CENTI as int) % (ZOOM_STEP_CENTI as int) == 0
}

} // verus!
