//! The in-memory character screen of `console_engine`, as far as the renderer
//! draws on it. Nothing in this file is proved: each contract records what the
//! screen's source does, and the rest of the crate is verified against them.
//! Each `requires` leaves out the inputs on which the screen's arithmetic
//! overflows or its store is indexed out of range, so that no call made here
//! panics.
//!
//! A screen cell also carries two colours. Every call made here writes the
//! terminal's default colours, and no contract speaks of them.

use console_engine::pixel;
use console_engine::screen::Screen;
use vstd::prelude::*;

verus! {

/// `console_engine::screen::Screen`, of which nothing is seen but through the
/// functions below.
#[verifier::external_type_specification]
#[verifier::external_body]
pub struct ExScreen(console_engine::screen::Screen);

/// The number of columns of a screen.
pub uninterp spec fn screen_width(screen: Screen) -> nat;

/// The number of rows of a screen.
pub uninterp spec fn screen_height(screen: Screen) -> nat;

/// The glyph held by each cell of a screen, keyed by `(column, row)`.
pub uninterp spec fn screen_cells(screen: Screen) -> Map<(int, int), char>;

/// Whether `(x, y)` lies on a `width` by `height` screen.
pub open spec fn on_screen(width: nat, height: nat, x: int, y: int) -> bool {
    0 <= x < width && 0 <= y < height
}

/// Whether `v` lies between `a` and `b`, ends included, whichever end is larger.
pub open spec fn between(a: int, b: int, v: int) -> bool {
    (a <= v <= b) || (b <= v <= a)
}

/// The limits inside which the screen computes cell positions without
/// overflow: both sides and the number of cells fit a signed 32-bit integer,
/// and there is one stored glyph per coordinate.
pub open spec fn screen_fits(screen: Screen) -> bool {
    &&& screen_width(screen) < i32::MAX
    &&& screen_height(screen) < i32::MAX
    &&& screen_width(screen) * screen_height(screen) <= i32::MAX
    &&& forall|x: int, y: int| #[trigger]
        screen_cells(screen).dom().contains((x, y)) <==> on_screen(
            screen_width(screen),
            screen_height(screen),
            x,
            y,
        )
}

/// The cells of a screen after a drawing call: the same coordinates, each
/// holding what `paint` gives for it.
pub open spec fn repainted(
    cells: Map<(int, int), char>,
    paint: spec_fn(int, int) -> char,
) -> Map<(int, int), char> {
    Map::new(|at: (int, int)| cells.dom().contains(at), |at: (int, int)| paint(at.0, at.1))
}

/// Whether a text holds none of the characters that `Screen::print` treats
/// specially: line feed, carriage return and tab.
pub open spec fn plain_text(text: Seq<char>) -> bool {
    forall|i: int| 0 <= i < text.len() ==> plain_char(#[trigger] text[i])
}

/// Whether `Screen::print` writes `glyph` as it is.
pub open spec fn plain_char(glyph: char) -> bool {
    glyph != '\n' && glyph != '\r' && glyph != '\t'
}

/// `Screen::new`: a screen of the given size with a space in every cell.
#[verifier::external_body]
pub(crate) fn screen_new(width: u32, height: u32) -> (screen: Screen)
    requires
        width * height <= u32::MAX,
    ensures
        screen_width(screen) == width,
        screen_height(screen) == height,
        screen_cells(screen) == Map::new(
            |at: (int, int)| on_screen(width as nat, height as nat, at.0, at.1),
            |at: (int, int)| ' ',
        ),
{
    Screen::new(width, height)
}

/// `Screen::get_width`.
#[verifier::external_body]
pub(crate) fn screen_get_width(screen: &Screen) -> (width: u32)
    ensures
        width == screen_width(*screen),
{
    screen.get_width()
}

/// `Screen::get_height`.
#[verifier::external_body]
pub(crate) fn screen_get_height(screen: &Screen) -> (height: u32)
    ensures
        height == screen_height(*screen),
{
    screen.get_height()
}

/// `Screen::clear`: every cell becomes a space.
#[verifier::external_body]
pub(crate) fn screen_clear(screen: &mut Screen)
    requires
        screen_fits(*old(screen)),
    ensures
        screen_width(*final(screen)) == screen_width(*old(screen)),
        screen_height(*final(screen)) == screen_height(*old(screen)),
        screen_cells(*final(screen)) == repainted(screen_cells(*old(screen)), |x: int, y: int| ' '),
    no_unwind
{
    screen.clear()
}

/// `Screen::get_pxl`, of which the glyph is kept: the glyph of the cell at
/// `(x, y)`, or nothing for coordinates off the screen. On a screen without
/// cells the outside function cannot build its error, so such a screen is
/// left out.
#[verifier::external_body]
pub(crate) fn screen_get_pxl(screen: &Screen, x: i32, y: i32) -> (glyph: Option<char>)
    requires
        screen_fits(*screen),
        screen_width(*screen) > 0,
        screen_height(*screen) > 0,
    ensures
        glyph == if screen_cells(*screen).dom().contains((x as int, y as int)) {
            Some(screen_cells(*screen)[(x as int, y as int)])
        } else {
            None
        },
{
    match screen.get_pxl(x, y) {
        Ok(pixel) => Some(pixel.chr),
        Err(_) => None,
    }
}

/// `Screen::set_pxl` with a pixel made by `pixel::pxl`: the cell at `(x, y)`
/// takes the glyph; coordinates off the screen change nothing.
#[verifier::external_body]
pub(crate) fn screen_set_pxl(screen: &mut Screen, x: i32, y: i32, glyph: char)
    requires
        screen_fits(*old(screen)),
    ensures
        screen_width(*final(screen)) == screen_width(*old(screen)),
        screen_height(*final(screen)) == screen_height(*old(screen)),
        screen_cells(*final(screen)) == repainted(
            screen_cells(*old(screen)),
            |cx: int, cy: int|
                if cx == x && cy == y {
                    glyph
                } else {
                    screen_cells(*old(screen))[(cx, cy)]
                },
        ),
    no_unwind
{
    screen.set_pxl(x, y, pixel::pxl(glyph))
}

/// `Screen::fill_rect` with a pixel made by `pixel::pxl`: every cell whose
/// column lies between `x0` and `x1` and whose row lies between `y0` and `y1`
/// takes the glyph. The outside function adds one to the larger end of each
/// pair, so the largest 32-bit value is left out.
#[verifier::external_body]
pub(crate) fn screen_fill_rect(screen: &mut Screen, x0: i32, y0: i32, x1: i32, y1: i32, glyph: char)
    requires
        screen_fits(*old(screen)),
        x0 < i32::MAX,
        y0 < i32::MAX,
        x1 < i32::MAX,
        y1 < i32::MAX,
    ensures
        screen_width(*final(screen)) == screen_width(*old(screen)),
        screen_height(*final(screen)) == screen_height(*old(screen)),
        screen_cells(*final(screen)) == repainted(
            screen_cells(*old(screen)),
            |cx: int, cy: int|
                if between(x0 as int, x1 as int, cx) && between(y0 as int, y1 as int, cy) {
                    glyph
                } else {
                    screen_cells(*old(screen))[(cx, cy)]
                },
        ),
    no_unwind
{
    screen.fill_rect(x0, y0, x1, y1, pixel::pxl(glyph))
}

/// `Screen::line` between two points of one column, with a pixel made by
/// `pixel::pxl`: every cell of column `x` whose row lies between `y0` and `y1`
/// takes the glyph. The outside function subtracts the two rows and adds one
/// to the larger, and to the column when the rows are equal; the inputs on
/// which that overflows are left out.
#[verifier::external_body]
pub(crate) fn screen_line_in_column(screen: &mut Screen, x: i32, y0: i32, y1: i32, glyph: char)
    requires
        screen_fits(*old(screen)),
        x < i32::MAX,
        y0 < i32::MAX,
        y1 < i32::MAX,
        i32::MIN <= y1 - y0 <= i32::MAX,
    ensures
        screen_width(*final(screen)) == screen_width(*old(screen)),
        screen_height(*final(screen)) == screen_height(*old(screen)),
        screen_cells(*final(screen)) == repainted(
            screen_cells(*old(screen)),
            |cx: int, cy: int|
                if cx == x && between(y0 as int, y1 as int, cy) {
                    glyph
                } else {
                    screen_cells(*old(screen))[(cx, cy)]
                },
        ),
    no_unwind
{
    screen.line(x, y0, x, y1, pixel::pxl(glyph))
}

/// `Screen::print` of a text without line feed, carriage return or tab, from
/// a cell with no negative coordinate: the text's characters go into row `y`
/// from column `x` on, one per cell, and what does not fit the row is dropped.
#[verifier::external_body]
pub(crate) fn screen_print(screen: &mut Screen, x: i32, y: i32, text: &str)
    requires
        screen_fits(*old(screen)),
        0 <= x,
        0 <= y,
        plain_text(text@),
    ensures
        screen_width(*final(screen)) == screen_width(*old(screen)),
        screen_height(*final(screen)) == screen_height(*old(screen)),
        screen_cells(*final(screen)) == repainted(
            screen_cells(*old(screen)),
            |cx: int, cy: int|
                if cy == y && x <= cx < x + text@.len() {
                    text@[cx - x]
                } else {
                    screen_cells(*old(screen))[(cx, cy)]
                },
        ),
    no_unwind
{
    screen.print(x, y, text)
}

} // verus!
