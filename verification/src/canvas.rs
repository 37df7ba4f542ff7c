//! The drawing surface: a screen of character cells that the renderers paint.

use crate::screen::{
    between, plain_text, repainted, screen_cells, screen_clear, screen_fill_rect, screen_fits,
    screen_get_height, screen_get_pxl, screen_get_width, screen_height, screen_line_in_column,
    screen_new, screen_print, screen_set_pxl, screen_width,
};
use console_engine::screen::Screen;
use vstd::prelude::*;

verus! {

/// The glyph of a cell that nothing was drawn on.
pub const BLANK: char = ' ';

/// The mathematical model of a [`Canvas`]: its size and the glyph of each cell.
pub ghost struct Frame {
    pub width: nat,
    pub height: nat,
    pub cells: Map<(int, int), char>,
}

impl Frame {
    /// Whether `(x, y)` is a cell of the frame.
    pub open spec fn contains(self, x: int, y: int) -> bool {
        0 <= x < self.width && 0 <= y < self.height
    }

    /// The glyph of cell `(x, y)`.
    pub open spec fn at(self, x: int, y: int) -> char {
        self.cells[(x, y)]
    }

    /// A frame holds exactly one glyph per cell, and is small enough for
    /// cell positions to be computed in 32 bits.
    pub open spec fn well_formed(self) -> bool {
        &&& self.width < i32::MAX
        &&& self.height < i32::MAX
        &&& self.width * self.height <= i32::MAX
        &&& forall|x: int, y: int| #[trigger]
            self.cells.dom().contains((x, y)) <==> self.contains(x, y)
    }

    /// The frame of the same size whose cell `(x, y)` holds `paint(x, y)`.
    pub open spec fn repaint(self, paint: spec_fn(int, int) -> char) -> Frame {
        Frame { width: self.width, height: self.height, cells: repainted(self.cells, paint) }
    }

    /// The frame of the given size with a blank in every cell.
    pub open spec fn blank(width: nat, height: nat) -> Frame {
        Frame {
            width,
            height,
            cells: Map::new(
                |at: (int, int)| 0 <= at.0 < width && 0 <= at.1 < height,
                |at: (int, int)| BLANK,
            ),
        }
    }
}

/// Whether a canvas of the given size can be made: each side is below the
/// largest signed 32-bit integer, and the number of cells is at most that.
pub open spec fn size_fits(width: nat, height: nat) -> bool {
    width < i32::MAX && height < i32::MAX && width * height <= i32::MAX
}

/// `v` pulled into the range from `-1` to `limit`. Seen from the cells
/// `0..limit` the pulled value stands where `v` stood.
spec fn clipped(v: int, limit: int) -> int {
    if v < -1 {
        -1
    } else if v > limit {
        limit
    } else {
        v
    }
}

/// Pulls a coordinate towards the canvas before it is handed to the screen.
fn clip(v: i32, limit: i32) -> (r: i32)
    requires
        0 <= limit,
    ensures
        r == clipped(v as int, limit as int),
{
    if v < -1 {
        -1
    } else if v > limit {
        limit
    } else {
        v
    }
}

/// A screen of character cells whose size stays within [`size_fits`].
pub struct Canvas {
    screen: Screen,
}

impl View for Canvas {
    type V = Frame;

    closed spec fn view(&self) -> Frame {
        Frame {
            width: screen_width(self.screen),
            height: screen_height(self.screen),
            cells: screen_cells(self.screen),
        }
    }
}

impl Canvas {
    /// Every canvas stays within the limits of the screen behind it.
    #[verifier::type_invariant]
    spec fn fits(self) -> bool {
        screen_fits(self.screen)
    }

    /// A blank canvas of the given size, or nothing where the size does not
    /// fit.
    pub fn new(width: u32, height: u32) -> (made: Option<Canvas>)
        ensures
            made is Some <==> size_fits(width as nat, height as nat),
            made matches Some(canvas) ==> canvas@ == Frame::blank(width as nat, height as nat)
                && canvas@.well_formed(),
    {
        if width >= i32::MAX as u32 || height >= i32::MAX as u32 {
            return None;
        }
        assert(width * height <= 0x7fff_ffff * 0x7fff_ffff) by (nonlinear_arith)
            requires
                width <= 0x7fff_ffff,
                height <= 0x7fff_ffff,
        ;
        let area: u64 = width as u64 * height as u64;
        if area > i32::MAX as u64 {
            return None;
        }
        let canvas = Canvas { screen: screen_new(width, height) };
        assert(canvas@.cells =~= Frame::blank(width as nat, height as nat).cells);
        Some(canvas)
    }

    /// The number of columns. The frame of a canvas is always well formed,
    /// which a caller learns here.
    pub fn width(&self) -> (width: u32)
        ensures
            width == self@.width,
            self@.well_formed(),
    {
        proof {
            use_type_invariant(self);
        }
        screen_get_width(&self.screen)
    }

    /// The number of rows. The frame of a canvas is always well formed,
    /// which a caller learns here.
    pub fn height(&self) -> (height: u32)
        ensures
            height == self@.height,
            self@.well_formed(),
    {
        proof {
            use_type_invariant(self);
        }
        screen_get_height(&self.screen)
    }

    /// The screen behind the canvas, to be shown.
    pub fn screen(&self) -> (screen: &Screen)
        ensures
            screen_width(*screen) == self@.width,
            screen_height(*screen) == self@.height,
            screen_cells(*screen) == self@.cells,
    {
        &self.screen
    }

    /// The glyph of cell `(x, y)`, or nothing for coordinates off the canvas.
    pub fn glyph_at(&self, x: i32, y: i32) -> (glyph: Option<char>)
        ensures
            glyph == if self@.contains(x as int, y as int) {
                Some(self@.at(x as int, y as int))
            } else {
                None
            },
    {
        proof {
            use_type_invariant(self);
        }
        let width = screen_get_width(&self.screen);
        let height = screen_get_height(&self.screen);
        if x < 0 || y < 0 || x as u32 >= width || y as u32 >= height {
            return None;
        }
        screen_get_pxl(&self.screen, x, y)
    }

    /// Blanks every cell.
    pub fn clear(&mut self)
        ensures
            final(self)@ == old(self)@.repaint(|x: int, y: int| BLANK),
    {
        proof {
            use_type_invariant(&*self);
        }
        screen_clear(&mut self.screen);
    }

    /// Puts `glyph` into cell `(x, y)`; coordinates off the canvas are ignored.
    pub fn put(&mut self, x: i32, y: i32, glyph: char)
        ensures
            final(self)@ == old(self)@.repaint(
                |cx: int, cy: int|
                    if cx == x && cy == y {
                        glyph
                    } else {
                        old(self)@.at(cx, cy)
                    },
            ),
    {
        proof {
            use_type_invariant(&*self);
        }
        screen_set_pxl(&mut self.screen, x, y, glyph);
        assert(self@.cells =~= old(self)@.repaint(
            |cx: int, cy: int|
                if cx == x && cy == y {
                    glyph
                } else {
                    old(self)@.at(cx, cy)
                },
        ).cells);
    }

    /// Fills the rectangle between two corners, both included, with `glyph`.
    /// The part of it that lies off the canvas is ignored.
    pub fn fill_rect(&mut self, x0: i32, y0: i32, x1: i32, y1: i32, glyph: char)
        ensures
            final(self)@ == old(self)@.repaint(
                |cx: int, cy: int|
                    if between(x0 as int, x1 as int, cx) && between(y0 as int, y1 as int, cy) {
                        glyph
                    } else {
                        old(self)@.at(cx, cy)
                    },
            ),
    {
        proof {
            use_type_invariant(&*self);
        }
        let width = screen_get_width(&self.screen) as i32;
        let height = screen_get_height(&self.screen) as i32;
        let (left, right) = (clip(x0, width), clip(x1, width));
        let (top, bottom) = (clip(y0, height), clip(y1, height));
        screen_fill_rect(&mut self.screen, left, top, right, bottom, glyph);
        assert(self@.cells =~= old(self)@.repaint(
            |cx: int, cy: int|
                if between(x0 as int, x1 as int, cx) && between(y0 as int, y1 as int, cy) {
                    glyph
                } else {
                    old(self)@.at(cx, cy)
                },
        ).cells);
    }

    /// Draws `glyph` down column `x` from row `y0` to row `y1`, both included,
    /// in either order. The part of the line that lies off the canvas is
    /// ignored.
    pub fn line_in_column(&mut self, x: i32, y0: i32, y1: i32, glyph: char)
        ensures
            final(self)@ == old(self)@.repaint(
                |cx: int, cy: int|
                    if cx == x && between(y0 as int, y1 as int, cy) {
                        glyph
                    } else {
                        old(self)@.at(cx, cy)
                    },
            ),
    {
        proof {
            use_type_invariant(&*self);
        }
        let width = screen_get_width(&self.screen) as i32;
        let height = screen_get_height(&self.screen) as i32;
        if 0 <= x && x < width {
            let (top, bottom) = (clip(y0, height), clip(y1, height));
            screen_line_in_column(&mut self.screen, x, top, bottom, glyph);
        }
        assert(self@.cells =~= old(self)@.repaint(
            |cx: int, cy: int|
                if cx == x && between(y0 as int, y1 as int, cy) {
                    glyph
                } else {
                    old(self)@.at(cx, cy)
                },
        ).cells);
    }

    /// Writes `text` into row `y` from column `x` on, one character per cell;
    /// what does not fit the row is dropped.
    pub(crate) fn print(&mut self, x: i32, y: i32, text: &str)
        requires
            0 <= x,
            0 <= y,
            plain_text(text@),
        ensures
            final(self)@ == old(self)@.repaint(
                |cx: int, cy: int|
                    if cy == y && x <= cx < x + text@.len() {
                        text@[cx - x]
                    } else {
                        old(self)@.at(cx, cy)
                    },
            ),
    {
        proof {
            use_type_invariant(&*self);
        }
        screen_print(&mut self.screen, x, y, text);
        assert(self@.cells =~= old(self)@.repaint(
            |cx: int, cy: int|
                if cy == y && x <= cx < x + text@.len() {
                    text@[cx - x]
                } else {
                    old(self)@.at(cx, cy)
                },
        ).cells);
    }
}

} // verus!
