//! Camera Follow & Zoom Controller.
//!
//! Zoom: a "zoom in" edge takes one step off the zoom unless it already
//! stands at or below the minimum; "zoom out" is symmetric against the
//! maximum. The comparison granularity is hundredths, which is why zoom
//! is stored in hundredths in the first place.
//!
//! Follow: each tick the camera is lerped toward the player by the factor
//! `CAMERA_BASE_SPEED * elapsed_seconds` and floored to whole pixels. In
//! fixed point the factor is `CAMERA_BASE_SPEED * dt_ms` thousandths, and
//! the floor is exact integer floor division. The camera's depth stays
//! pinned to [`CAMERA_LAYER_Z`] and never participates in the lerp.
//!
//! The controller's sole output besides the camera itself is the view
//! rectangle: centered on the camera, with the window half-extents scaled
//! by the zoom.

use vstd::prelude::*;

use vstd::arithmetic::div_mod::lemma_div_is_ordered;
use vstd::arithmetic::div_mod::lemma_div_multiples_vanish;
use vstd::arithmetic::div_mod::lemma_div_pos_is_pos;
use vstd::arithmetic::div_mod::lemma_fundamental_div_mod;
use vstd::arithmetic::div_mod::lemma_fundamental_div_mod_converse;
use vstd::arithmetic::div_mod::lemma_mod_division_less_than_divisor;

use crate::state::CAMERA_BASE_SPEED;
use crate::state::Camera;
use crate::state::MAX_TICK_MS;
use crate::state::MAX_ZOOM_CENTI;
use crate::state::MIN_ZOOM_CENTI;
use crate::state::ViewRect;
use crate::state::WINDOW_HALF_HEIGHT_PX;
use crate::state::WINDOW_HALF_WIDTH_PX;
use crate::state::ZOOM_STEP_CENTI;
use crate::state::coord_ok;
use crate::state::rect_contains;
use crate::state::zoom_wf;

verus! {

/// What one tick of zoom input makes of the zoom value: a "zoom in" edge
/// steps down unless already at or below the minimum, else a "zoom out"
/// edge steps up unless already at or above the maximum.
pub open spec fn zoom_next(z: int, zoom_in: bool, zoom_out: bool) -> int {
    if zoom_in {
        if z <= MIN_ZOOM_CENTI as int {
            z
        } else {
            z - ZOOM_STEP_CENTI as int
        }
    } else if zoom_out {
        if z >= MAX_ZOOM_CENTI as int {
            z
        } else {
            z + ZOOM_STEP_CENTI as int
        }
    } else {
        z
    }
}

/// One zoom step keeps the zoom well-formed: within the clamps and on
/// the step lattice.
pub proof fn lemma_zoom_next_wf(z: int, zoom_in: bool, zoom_out: bool)
    requires
        zoom_wf(z),
    ensures
        zoom_wf(zoom_next(z, zoom_in, zoom_out)),
{
}

/// The zoom value after a finite sequence of input edges, applied in
/// order.
pub open spec fn zoom_after_events(z: int, events: Seq<(bool, bool)>) -> int
    decreases events.len(),
{
    if events.len() == 0 {
        z
    } else {
        zoom_after_events(zoom_next(z, events[0].0, events[0].1), events.drop_first())
    }
}

/// Zoom never leaves `[MIN_ZOOM_CENTI, MAX_ZOOM_CENTI]` for any finite
/// sequence of zoom-in/zoom-out edges, starting from any reachable zoom.
pub proof fn lemma_zoom_never_leaves_range(z: int, events: Seq<(bool, bool)>)
    requires
        zoom_wf(z),
    ensures
        zoom_wf(zoom_after_events(z, events)),
        MIN_ZOOM_CENTI as int <= zoom_after_events(z, events) <= MAX_ZOOM_CENTI as int,
    decreases events.len(),
{
    if events.len() > 0 {
        lemma_zoom_next_wf(z, events[0].0, events[0].1);
        lemma_zoom_never_leaves_range(zoom_next(z, events[0].0, events[0].1), events.drop_first());
    }
}

/// Applies one tick of zoom input to the camera. Only the zoom changes.
pub fn zoom_step(camera: &mut Camera, zoom_in_pressed: bool, zoom_out_pressed: bool)
    requires
        zoom_wf(old(camera).zoom_centi as int),
    ensures
        final(camera).zoom_centi as int == zoom_next(
            old(camera).zoom_centi as int,
            zoom_in_pressed,
            zoom_out_pressed,
        ),
        zoom_wf(final(camera).zoom_centi as int),
        final(camera).x == old(camera).x,
        final(camera).y == old(camera).y,
{
    if zoom_in_pressed {
        if !(camera.zoom_centi <= MIN_ZOOM_CENTI) {
            camera.zoom_centi = camera.zoom_centi - ZOOM_STEP_CENTI;
        }
    } else if zoom_out_pressed {
        if !(camera.zoom_centi >= MAX_ZOOM_CENTI) {
            camera.zoom_centi = camera.zoom_centi + ZOOM_STEP_CENTI;
        }
    }
}

/// The lerp factor of one tick, in thousandths:
/// `CAMERA_BASE_SPEED * elapsed_seconds`, so `CAMERA_BASE_SPEED * dt_ms`.
pub open spec fn lerp_factor_milli(dt_ms: int) -> int {
    CAMERA_BASE_SPEED as int * dt_ms
}

/// One coordinate exponentially smoothed toward a target and floored to a
/// whole pixel: `c + (target - c) * t`, with `t` in thousandths and the
/// division rounding toward minus infinity.
pub open spec fn lerp_coord(c: int, target: int, t_milli: int) -> int {
    c + ((target - c) * t_milli) / 1000
}

/// With a lerp factor of at most one, the smoothed coordinate lies
/// between its start and its target.
pub proof fn lemma_lerp_stays_between(c: int, target: int, t_milli: int)
    requires
        0 <= t_milli <= 1000,
    ensures
        c <= target ==> c <= lerp_coord(c, target, t_milli) <= target,
        target <= c ==> target <= lerp_coord(c, target, t_milli) <= c,
{
    let dx = target - c;
    if dx >= 0 {
        assert(0 <= dx * t_milli <= dx * 1000) by (nonlinear_arith)
            requires
                dx >= 0,
                0 <= t_milli <= 1000,
        ;
        lemma_div_pos_is_pos(dx * t_milli, 1000);
        lemma_div_is_ordered(dx * t_milli, dx * 1000, 1000);
        lemma_div_multiples_vanish(dx, 1000);
        assert(dx * 1000 == 1000 * dx);
    } else {
        assert(dx * 1000 <= dx * t_milli <= 0) by (nonlinear_arith)
            requires
                dx < 0,
                0 <= t_milli <= 1000,
        ;
        lemma_div_is_ordered(dx * 1000, dx * t_milli, 1000);
        lemma_div_is_ordered(dx * t_milli, 0, 1000);
        lemma_div_multiples_vanish(dx, 1000);
        assert(dx * 1000 == 1000 * dx);
        assert(0int / 1000 == 0);
    }
}

/// Dividing a negated non-negative number rounds the other way: the floor
/// of `-m / 1000` is minus the ceiling of `m / 1000`.
proof fn lemma_div_of_negated(m: int)
    requires
        m >= 0,
    ensures
        (-m) / 1000 == if m % 1000 == 0 {
            -(m / 1000)
        } else {
            -(m / 1000) - 1
        },
{
    let q = m / 1000;
    let r = m % 1000;
    lemma_fundamental_div_mod(m, 1000);
    lemma_mod_division_less_than_divisor(m, 1000);
    if r == 0 {
        lemma_fundamental_div_mod_converse(-m, 1000, -q, 0);
    } else {
        lemma_fundamental_div_mod_converse(-m, 1000, -q - 1, 1000 - r);
    }
}

/// Lerps one coordinate toward a target and floors it to a whole pixel.
fn lerp_floor(c: i64, target: i64, t_milli: u64) -> (r: i64)
    requires
        coord_ok(c as int),
        coord_ok(target as int),
        t_milli <= 1000,
    ensures
        r as int == lerp_coord(c as int, target as int, t_milli as int),
{
    if target >= c {
        let mag: u64 = (target - c) as u64;
        proof {
            assert(mag as int * t_milli as int <= 2_000_000_000_000) by (nonlinear_arith)
                requires
                    0 <= mag as int <= 2_000_000_000,
                    0 <= t_milli as int <= 1000,
            ;
        }
        let num: u64 = mag * t_milli;
        let q: u64 = num / 1000;
        proof {
            lemma_div_pos_is_pos(num as int, 1000);
            assert(num as int <= mag as int * 1000) by (nonlinear_arith)
                requires
                    num as int == mag as int * t_milli as int,
                    mag >= 0,
                    t_milli <= 1000,
            ;
            lemma_div_is_ordered(num as int, mag as int * 1000, 1000);
            lemma_div_multiples_vanish(mag as int, 1000);
            assert(mag as int * 1000 == 1000 * mag as int);
        }
        c + (q as i64)
    } else {
        let mag: u64 = (c - target) as u64;
        proof {
            assert(mag as int * t_milli as int <= 2_000_000_000_000) by (nonlinear_arith)
                requires
                    0 <= mag as int <= 2_000_000_000,
                    0 <= t_milli as int <= 1000,
            ;
        }
        let num: u64 = mag * t_milli;
        let q: u64 = num / 1000;
        let qc: u64 = if num % 1000 == 0 {
            q
        } else {
            q + 1
        };
        proof {
            lemma_fundamental_div_mod(num as int, 1000);
            lemma_mod_division_less_than_divisor(num as int, 1000);
            assert(num as int <= mag as int * 1000) by (nonlinear_arith)
                requires
                    num as int == mag as int * t_milli as int,
                    mag >= 0,
                    t_milli <= 1000,
            ;
            lemma_div_is_ordered(num as int, mag as int * 1000, 1000);
            lemma_div_multiples_vanish(mag as int, 1000);
            assert(mag as int * 1000 == 1000 * mag as int);
            // Ceiling still fits below the magnitude: a non-zero
            // remainder forces the quotient strictly below it.
            if num % 1000 != 0 && q as int == mag as int {
                assert(false);
            }
            lemma_div_of_negated(num as int);
            assert((target - c) as int * t_milli as int == -(num as int)) by (nonlinear_arith)
                requires
                    num as int == mag as int * t_milli as int,
                    mag as int == c as int - target as int,
            ;
        }
        c - (qc as i64)
    }
}

/// Moves the camera one tick toward the player: both axes are smoothed by
/// the factor `CAMERA_BASE_SPEED * dt_ms` thousandths and floored to
/// whole pixels. The zoom is untouched, and the camera never overshoots:
/// each axis stays between its old value and the player's.
pub fn camera_follow(camera: &mut Camera, player_x: i64, player_y: i64, dt_ms: u64)
    requires
        dt_ms <= MAX_TICK_MS,
        coord_ok(old(camera).x as int),
        coord_ok(old(camera).y as int),
        coord_ok(player_x as int),
        coord_ok(player_y as int),
    ensures
        final(camera).x as int == lerp_coord(
            old(camera).x as int,
            player_x as int,
            lerp_factor_milli(dt_ms as int),
        ),
        final(camera).y as int == lerp_coord(
            old(camera).y as int,
            player_y as int,
            lerp_factor_milli(dt_ms as int),
        ),
        final(camera).zoom_centi == old(camera).zoom_centi,
        coord_ok(final(camera).x as int),
        coord_ok(final(camera).y as int),
{
    let ghost c0 = *camera;
    let t_milli: u64 = CAMERA_BASE_SPEED * dt_ms;
    camera.x = lerp_floor(camera.x, player_x, t_milli);
    camera.y = lerp_floor(camera.y, player_y, t_milli);
    proof {
        lemma_lerp_stays_between(c0.x as int, player_x as int, t_milli as int);
        lemma_lerp_stays_between(c0.y as int, player_y as int, t_milli as int);
    }
}

/// Half-extent of the view rectangle on one axis: the window half-extent
/// scaled by the zoom, in pixels.
pub open spec fn view_half_extent(window_half_px: int, zoom_centi: int) -> int {
    (window_half_px * zoom_centi) / 100
}

/// Whether a point lies within the view of a camera at the given
/// position and zoom: the view rectangle is centered on the camera with
/// the window half-extents scaled by the zoom, bounds inclusive.
pub open spec fn visible_in_view(cam_x: int, cam_y: int, zoom: int, x: int, y: int) -> bool {
    &&& cam_x - view_half_extent(WINDOW_HALF_WIDTH_PX as int, zoom) <= x <= cam_x
        + view_half_extent(WINDOW_HALF_WIDTH_PX as int, zoom)
    &&& cam_y - view_half_extent(WINDOW_HALF_HEIGHT_PX as int, zoom) <= y <= cam_y
        + view_half_extent(WINDOW_HALF_HEIGHT_PX as int, zoom)
}

/// Computes the view rectangle: centered on the camera, its half-extents
/// the window half-extents scaled by the current zoom.
pub fn make_view_rect(camera: &Camera) -> (r: ViewRect)
    requires
        coord_ok(camera.x as int),
        coord_ok(camera.y as int),
        zoom_wf(camera.zoom_centi as int),
    ensures
        r.min_x as int == camera.x as int - view_half_extent(
            WINDOW_HALF_WIDTH_PX as int,
            camera.zoom_centi as int,
        ),
        r.max_x as int == camera.x as int + view_half_extent(
            WINDOW_HALF_WIDTH_PX as int,
            camera.zoom_centi as int,
        ),
        r.min_y as int == camera.y as int - view_half_extent(
            WINDOW_HALF_HEIGHT_PX as int,
            camera.zoom_centi as int,
        ),
        r.max_y as int == camera.y as int + view_half_extent(
            WINDOW_HALF_HEIGHT_PX as int,
            camera.zoom_centi as int,
        ),
        forall|x: int, y: int| #[trigger]
            rect_contains(r, x, y) == visible_in_view(
                camera.x as int,
                camera.y as int,
                camera.zoom_centi as int,
                x,
                y,
            ),
{
    let z: u64 = camera.zoom_centi as u64;
    assert(z <= MAX_ZOOM_CENTI as u64);
    proof {
        assert((WINDOW_HALF_WIDTH_PX as u64) as int * z as int <= 30000) by (nonlinear_arith)
            requires
                0 <= (WINDOW_HALF_WIDTH_PX as u64) as int <= 400,
                0 <= z as int <= 75,
        ;
        assert((WINDOW_HALF_HEIGHT_PX as u64) as int * z as int <= 30000) by (nonlinear_arith)
            requires
                0 <= (WINDOW_HALF_HEIGHT_PX as u64) as int <= 400,
                0 <= z as int <= 75,
        ;
    }
    let half_w: i64 = (((WINDOW_HALF_WIDTH_PX as u64) * z) / 100) as i64;
    let half_h: i64 = (((WINDOW_HALF_HEIGHT_PX as u64) * z) / 100) as i64;
    ViewRect {
        min_x: camera.x - half_w,
        min_y: camera.y - half_h,
        max_x: camera.x + half_w,
        max_y: camera.y + half_h,
    }
}

} // verus!
