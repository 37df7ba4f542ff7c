//! The overhead map: every tile of the grid drawn two columns wide under the
//! first-person view, with the player's badge on top.

use crate::canvas::{Canvas, Frame, BLANK};
use crate::tilemap::{Grid, TileMap};
use vstd::prelude::*;

verus! {

/// The canvas row on which the first row of the map is drawn.
pub const MINIMAP_TOP: i32 = 20;

/// The player as the overhead map shows it: the tile it stands on and the
/// glyph drawn there.
#[derive(Clone, Copy, Debug, PartialEq, Eq, Structural)]
pub struct Marker {
    pub x: i32,
    pub y: i32,
    pub badge: char,
}

/// Whether canvas cell `(cx, cy)` belongs to a tile of the overhead map.
pub open spec fn on_minimap(grid: Grid, cx: int, cy: int) -> bool {
    0 <= cx && cx / 2 < grid.width && 0 <= cy - MINIMAP_TOP < grid.height
}

/// The glyph of canvas cell `(cx, cy)` once the tiles are drawn over
/// `before`: of the two cells of a tile the left one shows the tile's glyph
/// and the right one is blank.
pub open spec fn tiles_glyph(before: Frame, grid: Grid, cx: int, cy: int) -> char {
    if on_minimap(grid, cx, cy) {
        if cx % 2 == 0 {
            grid.tile(cx / 2, cy - MINIMAP_TOP)
        } else {
            BLANK
        }
    } else {
        before.at(cx, cy)
    }
}

/// Whether canvas cell `(cx, cy)` is where the marker's badge is drawn.
pub open spec fn marker_at(marker: Marker, cx: int, cy: int) -> bool {
    cx == 2 * marker.x && cy == marker.y + MINIMAP_TOP
}

/// The glyph of canvas cell `(cx, cy)` once the whole overhead map is drawn
/// over `before`.
pub open spec fn minimap_glyph(before: Frame, grid: Grid, marker: Marker, cx: int, cy: int) -> char {
    if marker_at(marker, cx, cy) {
        marker.badge
    } else {
        tiles_glyph(before, grid, cx, cy)
    }
}

/// The glyph of canvas cell `(cx, cy)` while the tiles are being drawn, when
/// the map rows above `row` and the first `column` tiles of that row are done.
spec fn partial_glyph(before: Frame, grid: Grid, row: int, column: int, cx: int, cy: int) -> char {
    if cy - MINIMAP_TOP < row || (cy - MINIMAP_TOP == row && cx / 2 < column) {
        tiles_glyph(before, grid, cx, cy)
    } else {
        before.at(cx, cy)
    }
}

/// Draws the tiles of the map, as far as they fall on the canvas.
pub fn draw_tiles(canvas: &mut Canvas, map: &TileMap)
    ensures
        final(canvas)@ == old(canvas)@.repaint(
            |cx: int, cy: int| tiles_glyph(old(canvas)@, map@, cx, cy),
        ),
{
    let ghost before = canvas@;
    let ghost grid = map@;
    let width = canvas.width();
    let height = canvas.height();
    let room: u32 = if height > MINIMAP_TOP as u32 {
        height - MINIMAP_TOP as u32
    } else {
        0
    };
    let rows: u32 = if map.height() < room {
        map.height()
    } else {
        room
    };
    let columns: u32 = if map.width() < (width + 1) / 2 {
        map.width()
    } else {
        (width + 1) / 2
    };
    assert(canvas@.cells =~= before.repaint(
        |cx: int, cy: int| partial_glyph(before, grid, 0, 0, cx, cy),
    ).cells);
    let mut row: u32 = 0;
    while row < rows
        invariant
            before.well_formed(),
            grid == map@,
            width == before.width,
            height == before.height,
            row <= rows <= grid.height,
            rows + MINIMAP_TOP <= height || rows == 0,
            columns <= grid.width,
            2 * columns <= width + 1,
            columns == grid.width || 2 * columns >= width,
            rows == grid.height || rows + MINIMAP_TOP >= height,
            canvas@ == before.repaint(
                |cx: int, cy: int| partial_glyph(before, grid, row as int, 0, cx, cy),
            ),
        decreases rows - row,
    {
        let mut column: u32 = 0;
        while column < columns
            invariant
                before.well_formed(),
                grid == map@,
                width == before.width,
                height == before.height,
                row < rows <= grid.height,
                rows + MINIMAP_TOP <= height,
                column <= columns <= grid.width,
                2 * columns <= width + 1,
            columns == grid.width || 2 * columns >= width,
            rows == grid.height || rows + MINIMAP_TOP >= height,
                canvas@ == before.repaint(
                    |cx: int, cy: int|
                        partial_glyph(before, grid, row as int, column as int, cx, cy),
                ),
            decreases columns - column,
        {
            let x = column as i32;
            let y = row as i32;
            canvas.put(2 * x, y + MINIMAP_TOP, map.tile_at(x, y));
            canvas.put(2 * x + 1, y + MINIMAP_TOP, BLANK);
            column += 1;
            assert(canvas@.cells =~= before.repaint(
                |cx: int, cy: int| partial_glyph(before, grid, row as int, column as int, cx, cy),
            ).cells);
        }
        row += 1;
        assert(canvas@.cells =~= before.repaint(
            |cx: int, cy: int| partial_glyph(before, grid, row as int, 0, cx, cy),
        ).cells);
    }
    assert(canvas@.cells =~= before.repaint(
        |cx: int, cy: int| tiles_glyph(before, grid, cx, cy),
    ).cells);
}

/// Draws the marker's badge over the left cell of the tile it stands on.
pub fn draw_marker(canvas: &mut Canvas, marker: Marker)
    ensures
        final(canvas)@ == old(canvas)@.repaint(
            |cx: int, cy: int|
                if marker_at(marker, cx, cy) {
                    marker.badge
                } else {
                    old(canvas)@.at(cx, cy)
                },
        ),
{
    let width = canvas.width();
    let height = canvas.height();
    let x: i64 = 2 * (marker.x as i64);
    let y: i64 = marker.y as i64 + MINIMAP_TOP as i64;
    if 0 <= x && x < width as i64 && 0 <= y && y < height as i64 {
        canvas.put(x as i32, y as i32, marker.badge);
    }
    assert(canvas@.cells =~= old(canvas)@.repaint(
        |cx: int, cy: int|
            if marker_at(marker, cx, cy) {
                marker.badge
            } else {
                old(canvas)@.at(cx, cy)
            },
    ).cells);
}

/// Draws the overhead map: the tiles, then the marker over them.
pub fn render_map(canvas: &mut Canvas, map: &TileMap, marker: Marker)
    ensures
        final(canvas)@ == old(canvas)@.repaint(
            |cx: int, cy: int| minimap_glyph(old(canvas)@, map@, marker, cx, cy),
        ),
{
    draw_tiles(canvas, map);
    draw_marker(canvas, marker);
    assert(canvas@.cells =~= old(canvas)@.repaint(
        |cx: int, cy: int| minimap_glyph(old(canvas)@, map@, marker, cx, cy),
    ).cells);
}

} // verus!
