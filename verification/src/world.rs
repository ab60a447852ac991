//! The simulation world and its per-tick schedule: the counterparts of
//! the host's startup pass and of the per-frame systems, composed into
//! one total tick function.

use vstd::prelude::*;

use crate::camera::camera_follow;
use crate::camera::lerp_coord;
use crate::camera::lerp_factor_milli;
use crate::camera::make_view_rect;
use crate::camera::visible_in_view;
use crate::camera::zoom_next;
use crate::camera::zoom_step;
use crate::cooldown::cooldown_next;
use crate::cooldown::update_cooldown;
use crate::culling::cull_tiles;
use crate::henshin::apply_henshin;
use crate::henshin::henshin_step;
use crate::movement::apply_movement;
use crate::movement::movement_step;
use crate::npc::despawn_all_npcs;
use crate::npc::spawn_npc;
use crate::npc::spawned_npc;
use crate::state::Camera;
use crate::state::COORD_LIMIT_PX;
use crate::state::DEFAULT_ZOOM_CENTI;
use crate::state::EquipmentSlot;
use crate::state::GRID_SIZE_PX;
use crate::state::InputSnapshot;
use crate::state::MAX_TICK_MS;
use crate::state::Npc;
use crate::state::NpcModel;
use crate::state::PLAYER_HEAD_SPRITE_INDEX;
use crate::state::Player;
use crate::state::PlayerModel;
use crate::state::SlotKind;
use crate::state::TILE_GRID_MAX;
use crate::state::TILE_GRID_MIN;
use crate::state::Tile;
use crate::state::coord_ok;
use crate::state::grid_aligned;
use crate::state::zoom_wf;

verus! {

/// Everything the simulation owns: the two singletons, the NPCs alive,
/// and the static tile grid.
pub struct World {
    pub player: Player,
    pub camera: Camera,
    pub npcs: Vec<Npc>,
    pub tiles: Vec<Tile>,
}

/// Tiles per row of the static grid.
pub open spec fn tiles_per_row() -> int {
    TILE_GRID_MAX as int - TILE_GRID_MIN as int
}

/// How many tiles the static grid holds.
pub open spec fn tile_total() -> int {
    tiles_per_row() * tiles_per_row()
}

/// Pixel x of the tile at grid index `i`: the grid is laid out column by
/// column, one cell apart.
pub open spec fn setup_tile_x(i: int) -> int {
    (i / tiles_per_row() + TILE_GRID_MIN as int) * GRID_SIZE_PX as int
}

/// Pixel y of the tile at grid index `i`.
pub open spec fn setup_tile_y(i: int) -> int {
    (i % tiles_per_row() + TILE_GRID_MIN as int) * GRID_SIZE_PX as int
}

/// The model of the player as setup creates it: at the origin, ready to
/// act, untransformed, owning exactly one head slot at its starting
/// sprite.
pub open spec fn setup_player() -> PlayerModel {
    PlayerModel {
        x: 0,
        y: 0,
        cooldown_ms: 0,
        henshin: false,
        slots: seq![
            EquipmentSlot { kind: SlotKind::Head, sprite_index: PLAYER_HEAD_SPRITE_INDEX },
        ],
    }
}

/// The startup contract: a world a tick can run on. Both singletons are
/// within the coordinate bound the arithmetic needs, and the zoom is one
/// the clamps and the step can actually reach.
pub open spec fn world_wf(w: World) -> bool {
    &&& coord_ok(w.player@.x)
    &&& coord_ok(w.player@.y)
    &&& coord_ok(w.camera.x as int)
    &&& coord_ok(w.camera.y as int)
    &&& zoom_wf(w.camera.zoom_centi as int)
}

/// Builds the world once at startup: the player (with its head slot) at
/// the origin, the camera at the origin with the default zoom, no NPCs,
/// and the full tile grid, every tile visible.
pub fn setup() -> (w: World)
    ensures
        w.player@ == setup_player(),
        w.camera.x == 0,
        w.camera.y == 0,
        w.camera.zoom_centi == DEFAULT_ZOOM_CENTI,
        w.npcs@.len() == 0,
        w.tiles@.len() == tile_total(),
        forall|i: int|
            0 <= i < tile_total() ==> #[trigger] w.tiles@[i] == (Tile {
                x: setup_tile_x(i) as i64,
                y: setup_tile_y(i) as i64,
                visible: true,
            }),
        world_wf(w),
{
    let mut slots: Vec<EquipmentSlot> = Vec::new();
    slots.push(EquipmentSlot { kind: SlotKind::Head, sprite_index: PLAYER_HEAD_SPRITE_INDEX });
    let player = Player { x: 0, y: 0, cooldown_ms: 0, henshin: false, slots };
    assert(player@ =~= setup_player());

    let camera = Camera { x: 0, y: 0, zoom_centi: DEFAULT_ZOOM_CENTI };

    let side: usize = (TILE_GRID_MAX - TILE_GRID_MIN) as usize;
    let total: usize = side * side;
    let mut tiles: Vec<Tile> = Vec::new();
    let mut idx: usize = 0;
    while idx < total
        invariant
            side == tiles_per_row(),
            total == tile_total(),
            idx <= total,
            tiles@.len() == idx,
            forall|i: int|
                0 <= i < idx ==> #[trigger] tiles@[i] == (Tile {
                    x: setup_tile_x(i) as i64,
                    y: setup_tile_y(i) as i64,
                    visible: true,
                }),
        decreases total - idx,
    {
        let gx: usize = idx / side;
        let gy: usize = idx % side;
        let tx: i64 = (gx as i64 + TILE_GRID_MIN) * GRID_SIZE_PX;
        let ty: i64 = (gy as i64 + TILE_GRID_MIN) * GRID_SIZE_PX;
        tiles.push(Tile { x: tx, y: ty, visible: true });
        idx = idx + 1;
    }

    World { player, camera, npcs: Vec::new(), tiles }
}

/// What one tick of the player systems makes of the player, after the
/// tick's cooldown decrement has been applied: the transformation state
/// machine runs first, then the movement controller, gating on the
/// cooldown the transformation may just have imposed.
pub open spec fn player_tick(p: PlayerModel, input: InputSnapshot, dt: int) -> PlayerModel {
    movement_step(
        henshin_step(
            PlayerModel { cooldown_ms: cooldown_next(p.cooldown_ms, dt), ..p },
            input.activate_pressed,
        ),
        input,
    )
}

/// A player whose cooldown is still running after the tick's decrement
/// does not move this tick, whatever is held — and a transformation
/// pressed in the same tick only lengthens that cooldown.
pub proof fn lemma_no_move_while_cooldown_runs(p: PlayerModel, input: InputSnapshot, dt: int)
    requires
        cooldown_next(p.cooldown_ms, dt) > 0,
    ensures
        player_tick(p, input, dt).x == p.x,
        player_tick(p, input, dt).y == p.y,
{
}

/// The player's position stays grid-aligned: a tick only ever moves it
/// by whole grid cells, so a player that starts on the grid — as setup
/// places it — is on the grid forever.
pub proof fn lemma_tick_keeps_grid_alignment(p: PlayerModel, input: InputSnapshot, dt: int)
    requires
        grid_aligned(p.x),
        grid_aligned(p.y),
    ensures
        grid_aligned(player_tick(p, input, dt).x),
        grid_aligned(player_tick(p, input, dt).y),
{
}

/// The has-transformed flag only ever goes from false to true: no tick,
/// whatever its input and elapsed time, takes it back.
pub proof fn lemma_henshin_monotonic(p: PlayerModel, input: InputSnapshot, dt: int)
    ensures
        p.henshin ==> player_tick(p, input, dt).henshin,
{
}

/// Runs the player's two input systems for one tick, in their fixed
/// order: transformation first, then grid movement, each gating on the
/// cooldown as it stands when that system reads it.
pub fn player_controller(player: &mut Player, input: InputSnapshot)
    requires
        coord_ok(old(player)@.x),
        coord_ok(old(player)@.y),
    ensures
        final(player)@ == movement_step(
            henshin_step(old(player)@, input.activate_pressed),
            input,
        ),
{
    apply_henshin(player, input.activate_pressed);
    apply_movement(player, input);
}

/// Runs the camera systems for one tick: zoom input first, then the
/// follow lerp toward the player, then culling every tile against the
/// resulting view rectangle.
pub fn camera_controller(
    camera: &mut Camera,
    tiles: &mut Vec<Tile>,
    player_x: i64,
    player_y: i64,
    input: InputSnapshot,
    dt_ms: u64,
)
    requires
        dt_ms <= MAX_TICK_MS,
        coord_ok(old(camera).x as int),
        coord_ok(old(camera).y as int),
        coord_ok(player_x as int),
        coord_ok(player_y as int),
        zoom_wf(old(camera).zoom_centi as int),
    ensures
        final(camera).zoom_centi as int == zoom_next(
            old(camera).zoom_centi as int,
            input.zoom_in_pressed,
            input.zoom_out_pressed,
        ),
        final(camera).x as int == lerp_coord(
            old(camera).x as int,
            player_x as int,
            lerp_factor_milli(dt_ms as int),
        ),
        final(camera).y as int == lerp_coord(
            old(camera).y as int,
            player_y as int,
            lerp_factor_milli(dt_ms as int),
        ),
        coord_ok(final(camera).x as int),
        coord_ok(final(camera).y as int),
        zoom_wf(final(camera).zoom_centi as int),
        final(tiles)@.len() == old(tiles)@.len(),
        forall|i: int|
            0 <= i < old(tiles)@.len() ==> ((#[trigger] final(tiles)@[i]).x == old(tiles)@[i].x
                && final(tiles)@[i].y == old(tiles)@[i].y),
        forall|i: int|
            0 <= i < old(tiles)@.len() ==> (#[trigger] final(tiles)@[i]).visible == visible_in_view(
                final(camera).x as int,
                final(camera).y as int,
                final(camera).zoom_centi as int,
                old(tiles)@[i].x as int,
                old(tiles)@[i].y as int,
            ),
{
    zoom_step(camera, input.zoom_in_pressed, input.zoom_out_pressed);
    camera_follow(camera, player_x, player_y, dt_ms);
    let rect = make_view_rect(camera);
    cull_tiles(tiles, rect);
}

/// Runs the NPC lifecycle for one tick. A "despawn-all" edge removes
/// every NPC that existed when the tick began, together with the slots
/// it owned; a "spawn" edge creates one NPC at the player's cell, which
/// outlives a despawn issued in the same tick.
pub fn npc_spawner(
    npcs: &mut Vec<Npc>,
    player_x: i64,
    player_y: i64,
    spawn_pressed: bool,
    despawn_pressed: bool,
)
    ensures
        final(npcs)@.len() == (if despawn_pressed {
            0int
        } else {
            old(npcs)@.len() as int
        }) + (if spawn_pressed {
            1int
        } else {
            0int
        }),
        !despawn_pressed ==> forall|i: int|
            0 <= i < old(npcs)@.len() ==> #[trigger] final(npcs)@[i] == old(npcs)@[i],
        spawn_pressed ==> final(npcs)@[final(npcs)@.len() - 1]@ == spawned_npc(
            player_x as int,
            player_y as int,
        ),
{
    if despawn_pressed {
        despawn_all_npcs(npcs);
    }
    if spawn_pressed {
        spawn_npc(npcs, player_x, player_y);
    }
}

/// One whole simulation tick, in the fixed schedule: every cooldown
/// decays first, so the gating systems observe the tick's post-decrement
/// value; the player's transformation and movement run next; the camera
/// follows the just-moved player and the tiles are culled against its
/// new view; spawn and despawn requests are applied last, so the tick's
/// iterations never observe a half-created or half-destroyed entity.
///
/// The coordinate margin in the requires is a machine limit, not a rule
/// of the game: movement is unbounded by design, so the caller keeps the
/// player within one cell of the arithmetic bound instead.
pub fn tick(w: &mut World, input: InputSnapshot, dt_ms: u64)
    requires
        dt_ms <= MAX_TICK_MS,
        world_wf(*old(w)),
        -(COORD_LIMIT_PX as int) + GRID_SIZE_PX as int <= old(w).player@.x <= COORD_LIMIT_PX as int
            - GRID_SIZE_PX as int,
        -(COORD_LIMIT_PX as int) + GRID_SIZE_PX as int <= old(w).player@.y <= COORD_LIMIT_PX as int
            - GRID_SIZE_PX as int,
    ensures
        world_wf(*final(w)),
        final(w).player@ == player_tick(old(w).player@, input, dt_ms as int),
        final(w).camera.zoom_centi as int == zoom_next(
            old(w).camera.zoom_centi as int,
            input.zoom_in_pressed,
            input.zoom_out_pressed,
        ),
        final(w).camera.x as int == lerp_coord(
            old(w).camera.x as int,
            player_tick(old(w).player@, input, dt_ms as int).x,
            lerp_factor_milli(dt_ms as int),
        ),
        final(w).camera.y as int == lerp_coord(
            old(w).camera.y as int,
            player_tick(old(w).player@, input, dt_ms as int).y,
            lerp_factor_milli(dt_ms as int),
        ),
        final(w).tiles@.len() == old(w).tiles@.len(),
        forall|i: int|
            0 <= i < old(w).tiles@.len() ==> ((#[trigger] final(w).tiles@[i]).x == old(
                w,
            ).tiles@[i].x && final(w).tiles@[i].y == old(w).tiles@[i].y),
        forall|i: int|
            0 <= i < old(w).tiles@.len() ==> (#[trigger] final(w).tiles@[i]).visible
                == visible_in_view(
                final(w).camera.x as int,
                final(w).camera.y as int,
                final(w).camera.zoom_centi as int,
                old(w).tiles@[i].x as int,
                old(w).tiles@[i].y as int,
            ),
        final(w).npcs@.len() == (if input.despawn_pressed {
            0int
        } else {
            old(w).npcs@.len() as int
        }) + (if input.spawn_pressed {
            1int
        } else {
            0int
        }),
        !input.despawn_pressed ==> forall|i: int|
            0 <= i < old(w).npcs@.len() ==> #[trigger] final(w).npcs@[i]@ == (NpcModel {
                cooldown_ms: cooldown_next(old(w).npcs@[i]@.cooldown_ms, dt_ms as int),
                ..old(w).npcs@[i]@
            }),
        input.spawn_pressed ==> final(w).npcs@[final(w).npcs@.len() - 1]@ == spawned_npc(
            player_tick(old(w).player@, input, dt_ms as int).x,
            player_tick(old(w).player@, input, dt_ms as int).y,
        ),
{
    update_cooldown(&mut w.player, &mut w.npcs, dt_ms);
    player_controller(&mut w.player, input);
    camera_controller(&mut w.camera, &mut w.tiles, w.player.x, w.player.y, input, dt_ms);
    npc_spawner(
        &mut w.npcs,
        w.player.x,
        w.player.y,
        input.spawn_pressed,
        input.despawn_pressed,
    );
}

} // verus!
