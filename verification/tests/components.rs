//! Component-level tests: cooldown decay, movement gating, the
//! transformation machine, zoom stepping, and the camera lerp.

use grid_sim::camera::camera_follow;
use grid_sim::camera::make_view_rect;
use grid_sim::camera::zoom_step;
use grid_sim::cooldown::tick_cooldown;
use grid_sim::cooldown::update_cooldown;
use grid_sim::henshin::apply_henshin;
use grid_sim::movement::apply_movement;
use grid_sim::npc::despawn_all_npcs;
use grid_sim::npc::spawn_npc;
use grid_sim::state::Camera;
use grid_sim::state::EquipmentSlot;
use grid_sim::state::InputSnapshot;
use grid_sim::state::Npc;
use grid_sim::state::Player;
use grid_sim::state::SlotKind;
use grid_sim::state::GRID_SIZE_PX;
use grid_sim::state::HENSHIN_BASE_COOLDOWN_MS;
use grid_sim::state::MAX_ZOOM_CENTI;
use grid_sim::state::MIN_ZOOM_CENTI;
use grid_sim::state::MOVEMENT_BASE_COOLDOWN_MS;
use grid_sim::state::PLAYER_HEAD_SPRITE_INDEX;
use grid_sim::state::TRANSFORMED_HEAD_SPRITE_INDEX;

fn test_player(x: i64, y: i64, cooldown_ms: u64) -> Player {
    Player {
        x,
        y,
        cooldown_ms,
        henshin: false,
        slots: vec![EquipmentSlot { kind: SlotKind::Head, sprite_index: PLAYER_HEAD_SPRITE_INDEX }],
    }
}

#[test]
fn default_player_starts_untransformed() {
    let p = Player::default();
    assert!(!p.henshin);
    assert_eq!(p.cooldown_ms, 0);
    assert_eq!((p.x, p.y), (0, 0));
    assert!(p.slots.is_empty());
}

#[test]
fn cooldown_decays_and_floors_at_zero() {
    let mut c: u64 = 500;
    tick_cooldown(&mut c, 200);
    assert_eq!(c, 300);
    tick_cooldown(&mut c, 200);
    assert_eq!(c, 100);
    tick_cooldown(&mut c, 200);
    assert_eq!(c, 0);
    // idempotent at exactly zero
    tick_cooldown(&mut c, 200);
    assert_eq!(c, 0);
}

#[test]
fn cooldown_n_ticks_is_initial_minus_n_dt() {
    // ten ticks of 40 ms off an initial 450 ms: max(0, 450 - 10 * 40) = 50
    let mut c: u64 = 450;
    for _ in 0..10 {
        tick_cooldown(&mut c, 40);
    }
    assert_eq!(c, 50);
    // and twelve ticks would floor at zero
    let mut d: u64 = 450;
    for _ in 0..12 {
        tick_cooldown(&mut d, 40);
    }
    assert_eq!(d, 0);
}

#[test]
fn update_cooldown_covers_player_and_npcs() {
    let mut player = test_player(0, 0, 120);
    let mut npcs = vec![
        Npc { x: 0, y: 0, cooldown_ms: 10, slots: Vec::new() },
        Npc { x: 32, y: 0, cooldown_ms: 300, slots: Vec::new() },
    ];
    update_cooldown(&mut player, &mut npcs, 100);
    assert_eq!(player.cooldown_ms, 20);
    assert_eq!(npcs[0].cooldown_ms, 0);
    assert_eq!(npcs[1].cooldown_ms, 200);
}

#[test]
fn movement_blocked_while_cooldown_runs() {
    let mut player = test_player(64, -32, 1);
    let mut input = InputSnapshot::default();
    input.up_held = true;
    input.right_held = true;
    apply_movement(&mut player, input);
    assert_eq!(player.x, 64);
    assert_eq!(player.y, -32);
    assert_eq!(player.cooldown_ms, 1);
}

#[test]
fn movement_moves_one_cell_and_resets_cooldown() {
    let mut player = test_player(0, 0, 0);
    let mut input = InputSnapshot::default();
    input.up_held = true;
    apply_movement(&mut player, input);
    assert_eq!(player.x, 0);
    assert_eq!(player.y, GRID_SIZE_PX);
    assert_eq!(player.cooldown_ms, MOVEMENT_BASE_COOLDOWN_MS);
}

#[test]
fn diagonal_move_costs_one_cooldown() {
    let mut player = test_player(0, 0, 0);
    let mut input = InputSnapshot::default();
    input.down_held = true;
    input.left_held = true;
    apply_movement(&mut player, input);
    assert_eq!(player.x, -GRID_SIZE_PX);
    assert_eq!(player.y, -GRID_SIZE_PX);
    assert_eq!(player.cooldown_ms, MOVEMENT_BASE_COOLDOWN_MS);
}

#[test]
fn vertical_priority_up_wins_over_down() {
    let mut player = test_player(0, 0, 0);
    let mut input = InputSnapshot::default();
    input.up_held = true;
    input.down_held = true;
    apply_movement(&mut player, input);
    assert_eq!(player.y, GRID_SIZE_PX);
}

#[test]
fn henshin_sets_flag_cooldown_and_head_sprite() {
    let mut player = test_player(0, 0, 77);
    apply_henshin(&mut player, true);
    assert!(player.henshin);
    assert_eq!(player.cooldown_ms, HENSHIN_BASE_COOLDOWN_MS);
    assert_eq!(player.slots.len(), 1);
    assert_eq!(player.slots[0].sprite_index, TRANSFORMED_HEAD_SPRITE_INDEX);
    assert!(matches!(player.slots[0].kind, SlotKind::Head));
}

#[test]
fn henshin_second_activation_has_no_effect() {
    let mut player = test_player(0, 0, 0);
    apply_henshin(&mut player, true);
    // let the imposed cooldown decay a little, then press again
    tick_cooldown(&mut player.cooldown_ms, 400);
    let cooldown_before = player.cooldown_ms;
    apply_henshin(&mut player, true);
    assert!(player.henshin);
    assert_eq!(player.cooldown_ms, cooldown_before);
    assert_eq!(player.slots[0].sprite_index, TRANSFORMED_HEAD_SPRITE_INDEX);
}

#[test]
fn henshin_without_press_does_nothing() {
    let mut player = test_player(0, 0, 0);
    apply_henshin(&mut player, false);
    assert!(!player.henshin);
    assert_eq!(player.cooldown_ms, 0);
    assert_eq!(player.slots[0].sprite_index, PLAYER_HEAD_SPRITE_INDEX);
}

#[test]
fn zoom_in_steps_down_and_stops_at_minimum() {
    let mut camera = Camera { x: 0, y: 0, zoom_centi: 50 };
    zoom_step(&mut camera, true, false);
    assert_eq!(camera.zoom_centi, 25);
    zoom_step(&mut camera, true, false);
    assert_eq!(camera.zoom_centi, MIN_ZOOM_CENTI);
}

#[test]
fn zoom_out_steps_up_and_stops_at_maximum() {
    let mut camera = Camera { x: 0, y: 0, zoom_centi: 50 };
    zoom_step(&mut camera, false, true);
    assert_eq!(camera.zoom_centi, 75);
    zoom_step(&mut camera, false, true);
    assert_eq!(camera.zoom_centi, MAX_ZOOM_CENTI);
}

#[test]
fn zoom_in_wins_when_both_edges_fire() {
    let mut camera = Camera { x: 0, y: 0, zoom_centi: 50 };
    zoom_step(&mut camera, true, true);
    assert_eq!(camera.zoom_centi, 25);
}

#[test]
fn zoom_stays_in_range_over_any_sequence() {
    let mut camera = Camera { x: 0, y: 0, zoom_centi: 50 };
    let presses = [
        (true, false),
        (true, false),
        (false, true),
        (false, true),
        (false, true),
        (false, true),
        (true, false),
        (false, false),
    ];
    for (zi, zo) in presses {
        zoom_step(&mut camera, zi, zo);
        assert!(MIN_ZOOM_CENTI <= camera.zoom_centi && camera.zoom_centi <= MAX_ZOOM_CENTI);
    }
}

#[test]
fn camera_reaches_player_when_factor_is_one() {
    // dt of 100 ms makes the lerp factor exactly 1
    let mut camera = Camera { x: 0, y: 0, zoom_centi: 50 };
    camera_follow(&mut camera, 100, -64, 100);
    assert_eq!(camera.x, 100);
    assert_eq!(camera.y, -64);
}

#[test]
fn camera_half_step_floors_toward_minus_infinity() {
    // dt of 50 ms halves the distance; -75 / 2 floors to -38, not -37
    let mut camera = Camera { x: 0, y: 0, zoom_centi: 50 };
    camera_follow(&mut camera, 100, -75, 50);
    assert_eq!(camera.x, 50);
    assert_eq!(camera.y, -38);
}

#[test]
fn camera_stands_still_with_no_elapsed_time() {
    let mut camera = Camera { x: 7, y: 9, zoom_centi: 50 };
    camera_follow(&mut camera, 1000, 1000, 0);
    assert_eq!(camera.x, 7);
    assert_eq!(camera.y, 9);
}

#[test]
fn view_rect_scales_with_zoom() {
    let camera = Camera { x: 10, y: -20, zoom_centi: 50 };
    let r = make_view_rect(&camera);
    assert_eq!(r.min_x, 10 - 200);
    assert_eq!(r.max_x, 10 + 200);
    assert_eq!(r.min_y, -20 - 150);
    assert_eq!(r.max_y, -20 + 150);
    let tight = make_view_rect(&Camera { x: 10, y: -20, zoom_centi: 25 });
    assert_eq!(tight.max_x, 10 + 100);
    assert_eq!(tight.max_y, -20 + 75);
}

#[test]
fn spawn_and_despawn_npcs() {
    let mut npcs: Vec<Npc> = Vec::new();
    spawn_npc(&mut npcs, 32, -32);
    spawn_npc(&mut npcs, 64, 0);
    assert_eq!(npcs.len(), 2);
    assert_eq!(npcs[0].x, 32);
    assert_eq!(npcs[0].y, -32);
    assert_eq!(npcs[0].cooldown_ms, 0);
    assert_eq!(npcs[0].slots.len(), 1);
    despawn_all_npcs(&mut npcs);
    assert_eq!(npcs.len(), 0);
    let total_slots: usize = npcs.iter().map(|n| n.slots.len()).sum();
    assert_eq!(total_slots, 0);
}
