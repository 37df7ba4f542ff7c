//! The first-person view: a floor under the horizon and one wall slice per
//! screen column.

use crate::canvas::{Canvas, Frame};
use crate::screen::between;
use vstd::prelude::*;

verus! {

/// The glyph that fills the lower half of the view before any wall is drawn.
pub const FLOOR: char = '`';

/// What one ray found: the glyph of the tile that stopped it, and half the
/// height in rows of the wall slice it is drawn as.
#[derive(Clone, Copy, Debug, PartialEq, Eq, Structural)]
pub struct Slice {
    pub half: i32,
    pub glyph: char,
}

impl Slice {
    /// Whether the slice, centred on row `horizon`, covers row `y`.
    pub open spec fn covers(self, horizon: int, y: int) -> bool {
        between(horizon - self.half, horizon + self.half, y)
    }
}

/// The row on which the wall slices are centred: the first row of the lower
/// half.
pub open spec fn horizon(frame: Frame) -> int {
    frame.height as int / 2
}

/// The glyph of cell `(x, y)` once the floor is laid over `before`.
pub open spec fn floor_glyph(before: Frame, x: int, y: int) -> char {
    if y >= horizon(before) {
        FLOOR
    } else {
        before.at(x, y)
    }
}

/// The glyph of cell `(x, y)` once the whole view is drawn over `before`:
/// the column's slice where it reaches, the floor or what was there elsewhere.
pub open spec fn view_glyph(before: Frame, slices: Seq<Slice>, x: int, y: int) -> char {
    if 0 <= x < slices.len() && slices[x].covers(horizon(before), y) {
        slices[x].glyph
    } else {
        floor_glyph(before, x, y)
    }
}

/// Fills every row from the horizon down with the floor glyph.
pub fn fill_floor(canvas: &mut Canvas)
    ensures
        final(canvas)@ == old(canvas)@.repaint(|x: int, y: int| floor_glyph(old(canvas)@, x, y)),
{
    let width = canvas.width() as i32;
    let height = canvas.height() as i32;
    canvas.fill_rect(0, height / 2, width, height, FLOOR);
    assert(canvas@.cells =~= old(canvas)@.repaint(
        |x: int, y: int| floor_glyph(old(canvas)@, x, y),
    ).cells);
}

/// Draws one wall slice in column `x`, centred on the horizon.
pub fn draw_slice(canvas: &mut Canvas, x: i32, slice: Slice)
    ensures
        final(canvas)@ == old(canvas)@.repaint(
            |cx: int, cy: int|
                if cx == x && slice.covers(horizon(old(canvas)@), cy) {
                    slice.glyph
                } else {
                    old(canvas)@.at(cx, cy)
                },
        ),
{
    let height = canvas.height() as i32;
    let middle: i64 = (height / 2) as i64;
    let top = into_rows(middle - slice.half as i64, height);
    let bottom = into_rows(middle + slice.half as i64, height);
    canvas.line_in_column(x, top, bottom, slice.glyph);
    assert(canvas@.cells =~= old(canvas)@.repaint(
        |cx: int, cy: int|
            if cx == x && slice.covers(horizon(old(canvas)@), cy) {
                slice.glyph
            } else {
                old(canvas)@.at(cx, cy)
            },
    ).cells);
}

/// Row `y` pulled into the range from `-1` to `height`, which leaves it on
/// the same side of every row of the canvas.
fn into_rows(y: i64, height: i32) -> (row: i32)
    requires
        0 <= height,
    ensures
        -1 <= row <= height,
        y < 0 ==> row == -1,
        0 <= y < height ==> row == y,
        y >= height ==> row == height,
{
    if y < 0 {
        -1
    } else if y >= height as i64 {
        height
    } else {
        y as i32
    }
}

/// Draws the first-person view: the floor, then slice `x` of `slices` in
/// column `x` for every column that has one.
pub fn render_view(canvas: &mut Canvas, slices: &Vec<Slice>)
    ensures
        final(canvas)@ == old(canvas)@.repaint(
            |x: int, y: int| view_glyph(old(canvas)@, slices@, x, y),
        ),
{
    let ghost before = canvas@;
    let width = canvas.width();
    fill_floor(canvas);
    let mut x: u32 = 0;
    assert(canvas@.cells =~= before.repaint(
        |cx: int, cy: int|
            if cx < 0 {
                view_glyph(before, slices@, cx, cy)
            } else {
                floor_glyph(before, cx, cy)
            },
    ).cells);
    while x < width && (x as usize) < slices.len()
        invariant
            x <= width < i32::MAX,
            x <= slices.len(),
            width == before.width,
            before.well_formed(),
            canvas@ == before.repaint(
                |cx: int, cy: int|
                    if cx < x {
                        view_glyph(before, slices@, cx, cy)
                    } else {
                        floor_glyph(before, cx, cy)
                    },
            ),
        decreases width - x,
    {
        draw_slice(canvas, x as i32, slices[x as usize]);
        x += 1;
        assert(canvas@.cells =~= before.repaint(
            |cx: int, cy: int|
                if cx < x {
                    view_glyph(before, slices@, cx, cy)
                } else {
                    floor_glyph(before, cx, cy)
                },
        ).cells);
    }
    assert(canvas@.cells =~= before.repaint(
        |cx: int, cy: int| view_glyph(before, slices@, cx, cy),
    ).cells);
}

} // verus!
