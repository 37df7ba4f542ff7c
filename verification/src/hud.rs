//! The key help line.

use crate::canvas::{Canvas, Frame};
use vstd::prelude::*;

verus! {

/// The keys and what they do, shown in the first row.
pub const HELP: &'static str = "wasd: move, qe: rotate, f: map, h: help, x: exit";

/// The glyph of cell `(x, y)` once the help line is written over `before`.
pub open spec fn help_glyph(before: Frame, x: int, y: int) -> char {
    if y == 0 && 0 <= x < HELP@.len() {
        HELP@[x]
    } else {
        before.at(x, y)
    }
}

/// Writes the help line into the first row, from the left edge on; what does
/// not fit the row is dropped.
pub fn render_help(canvas: &mut Canvas)
    ensures
        final(canvas)@ == old(canvas)@.repaint(|x: int, y: int| help_glyph(old(canvas)@, x, y)),
{
    proof {
        reveal_strlit("wasd: move, qe: rotate, f: map, h: help, x: exit");
    }
    canvas.print(0, 0, HELP);
    assert(canvas@.cells =~= old(canvas)@.repaint(
        |x: int, y: int| help_glyph(old(canvas)@, x, y),
    ).cells);
}

} // verus!
