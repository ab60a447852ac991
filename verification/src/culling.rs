//! Visibility Culling Filter: every tile is marked visible exactly when
//! its position lies within the camera's current view rectangle. The
//! filter is a pure function of the rectangle and the tile positions,
//! recomputed in full every tick.

use vstd::prelude::*;

use crate::state::Tile;
use crate::state::ViewRect;
use crate::state::rect_contains;

verus! {

/// Whether a point lies within the rectangle, bounds inclusive.
pub fn view_rect_contains(r: ViewRect, x: i64, y: i64) -> (b: bool)
    ensures
        b == rect_contains(r, x as int, y as int),
{
    r.min_x <= x && x <= r.max_x && r.min_y <= y && y <= r.max_y
}

/// A tile after culling against a rectangle: same position, visible
/// exactly when the position lies within the rectangle.
pub open spec fn culled_tile(t: Tile, r: ViewRect) -> Tile {
    Tile { visible: rect_contains(r, t.x as int, t.y as int), ..t }
}

/// A whole tile set after culling against a rectangle.
pub open spec fn culled_tiles(tiles: Seq<Tile>, r: ViewRect) -> Seq<Tile> {
    tiles.map(|i: int, t: Tile| culled_tile(t, r))
}

/// Marks every tile visible iff its position lies within the view
/// rectangle.
pub fn cull_tiles(tiles: &mut Vec<Tile>, r: ViewRect)
    ensures
        final(tiles)@ == culled_tiles(old(tiles)@, r),
        final(tiles)@.len() == old(tiles)@.len(),
        forall|i: int|
            0 <= i < old(tiles)@.len() ==> #[trigger] final(tiles)@[i] == culled_tile(
                old(tiles)@[i],
                r,
            ),
{
    let ghost ts0 = tiles@;
    let n = tiles.len();
    let mut i: usize = 0;
    while i < n
        invariant
            n == tiles@.len(),
            n == ts0.len(),
            i <= n,
            forall|j: int| 0 <= j < i ==> #[trigger] tiles@[j] == culled_tile(ts0[j], r),
            forall|j: int| i <= j < n ==> #[trigger] tiles@[j] == ts0[j],
        decreases n - i,
    {
        let t = tiles[i];
        let visible = view_rect_contains(r, t.x, t.y);
        tiles.set(i, Tile { x: t.x, y: t.y, visible });
        i = i + 1;
    }
    assert(tiles@ =~= culled_tiles(ts0, r));
}

/// Culling is determined by the rectangle and the tile positions alone:
/// two tile sets with the same positions — however their previous
/// visibility differed — end up with exactly the same visibility set
/// under the same rectangle.
pub proof fn lemma_culling_depends_only_on_positions(a: Seq<Tile>, b: Seq<Tile>, r: ViewRect)
    requires
        a.len() == b.len(),
        forall|i: int| 0 <= i < a.len() ==> #[trigger] a[i].x == b[i].x && a[i].y == b[i].y,
    ensures
        forall|i: int|
            0 <= i < a.len() ==> #[trigger] culled_tiles(a, r)[i].visible == culled_tiles(
                b,
                r,
            )[i].visible,
{
}

/// The round trip: whatever rectangle the tiles were culled against in
/// between, coming back to a prior rectangle — the camera back at a
/// prior position and zoom — restores the prior visibility set exactly,
/// the tile positions being unchanged.
pub proof fn lemma_culling_round_trip(tiles: Seq<Tile>, prior: ViewRect, meanwhile: ViewRect)
    ensures
        forall|i: int|
            0 <= i < tiles.len() ==> #[trigger] culled_tiles(
                culled_tiles(tiles, meanwhile),
                prior,
            )[i].visible == culled_tiles(tiles, prior)[i].visible,
{
    lemma_culling_depends_only_on_positions(culled_tiles(tiles, meanwhile), tiles, prior);
}

} // verus!
