//! One whole frame: the first-person view on a cleared canvas, and over it
//! the overlays that are switched on.

use crate::canvas::{Canvas, Frame, BLANK};
use crate::hud::{help_glyph, render_help};
use crate::minimap::{minimap_glyph, render_map, Marker};
use crate::tilemap::{Grid, TileMap};
use crate::view::{render_view, view_glyph, Slice};
use vstd::prelude::*;

verus! {

/// `before` with every cell blank.
pub open spec fn cleared(before: Frame) -> Frame {
    before.repaint(|x: int, y: int| BLANK)
}

/// The first-person view drawn over `before`.
pub open spec fn with_view(before: Frame, slices: Seq<Slice>) -> Frame {
    before.repaint(|x: int, y: int| view_glyph(before, slices, x, y))
}

/// The overhead map drawn over `before`.
pub open spec fn with_minimap(before: Frame, grid: Grid, marker: Marker) -> Frame {
    before.repaint(|x: int, y: int| minimap_glyph(before, grid, marker, x, y))
}

/// The help line drawn over `before`.
pub open spec fn with_help(before: Frame) -> Frame {
    before.repaint(|x: int, y: int| help_glyph(before, x, y))
}

/// The frame that is shown: nothing of `before` but its size is kept; the
/// view comes first, then the overhead map if it is on, then the help line if
/// it is on, each over what was drawn so far.
pub open spec fn frame_of(
    before: Frame,
    slices: Seq<Slice>,
    grid: Grid,
    marker: Marker,
    minimap: bool,
    help: bool,
) -> Frame {
    let view = with_view(cleared(before), slices);
    let mapped = if minimap {
        with_minimap(view, grid, marker)
    } else {
        view
    };
    if help {
        with_help(mapped)
    } else {
        mapped
    }
}

/// Draws one frame.
pub fn render_frame(
    canvas: &mut Canvas,
    slices: &Vec<Slice>,
    map: &TileMap,
    marker: Marker,
    minimap: bool,
    help: bool,
)
    ensures
        final(canvas)@ == frame_of(old(canvas)@, slices@, map@, marker, minimap, help),
{
    canvas.clear();
    render_view(canvas, slices);
    if minimap {
        render_map(canvas, map, marker);
    }
    if help {
        render_help(canvas);
    }
}

} // verus!
