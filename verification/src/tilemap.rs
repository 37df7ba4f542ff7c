//! The world model: a grid of character tiles stored row after row.

use vstd::prelude::*;

verus! {

/// The glyph of an empty tile, which a ray passes through.
pub const EMPTY: char = ' ';

/// The glyph answered for every lookup that misses the tile store. It differs
/// from [`EMPTY`], so a ray that leaves the store is stopped.
pub const SENTINEL: char = '^';

/// What a marching ray learns from the cell it stands on: it may go on, or a
/// tile with the given glyph stops it.
#[derive(Clone, Copy, Debug, PartialEq, Eq, Structural)]
pub enum Probe {
    Open,
    Hit(char),
}

/// The mathematical model of a [`TileMap`].
pub ghost struct Grid {
    pub width: nat,
    pub height: nat,
    pub tiles: Seq<char>,
}

impl Grid {
    /// The position of cell `(x, y)` in the row-major tile store.
    pub open spec fn flat_index(self, x: int, y: int) -> int {
        y * self.width + x
    }

    /// Whether `(x, y)` is a cell of the `width` by `height` rectangle.
    pub open spec fn contains(self, x: int, y: int) -> bool {
        0 <= x < self.width && 0 <= y < self.height
    }

    /// Whether the store holds one tile for each cell of the rectangle. A map
    /// is not made to be so: it is what its maker is expected to see to.
    pub open spec fn consistent(self) -> bool {
        self.tiles.len() == self.width * self.height
    }

    /// Whether cell `(x, y)` falls on a stored tile.
    pub open spec fn in_store(self, x: int, y: int) -> bool {
        0 <= self.flat_index(x, y) < self.tiles.len()
    }

    /// The glyph seen at cell `(x, y)`.
    pub open spec fn tile(self, x: int, y: int) -> char {
        if self.in_store(x, y) {
            self.tiles[self.flat_index(x, y)]
        } else {
            SENTINEL
        }
    }

    /// Whether a ray may pass through cell `(x, y)`.
    pub open spec fn is_open(self, x: int, y: int) -> bool {
        self.tile(x, y) == EMPTY
    }

    /// What a ray standing on cell `(x, y)` learns.
    pub open spec fn probe(self, x: int, y: int) -> Probe {
        if self.is_open(x, y) {
            Probe::Open
        } else {
            Probe::Hit(self.tile(x, y))
        }
    }
}

/// A ray passes only through stored tiles, and those are empty.
pub proof fn lemma_open_cells_are_stored(grid: Grid, x: int, y: int)
    requires
        grid.is_open(x, y),
    ensures
        grid.in_store(x, y),
        grid.tiles[grid.flat_index(x, y)] == EMPTY,
{
}

/// In a consistent map the stored tiles are the cells of the rectangle: in a
/// column of the map, a cell is stored if and only if its row is a row of the
/// map, and it then shows the tile at that place of the rows joined end to end.
pub proof fn lemma_store_is_the_rectangle(grid: Grid, x: int, y: int)
    requires
        grid.consistent(),
        0 <= x < grid.width,
    ensures
        grid.in_store(x, y) == grid.contains(x, y),
        grid.contains(x, y) ==> grid.tile(x, y) == grid.tiles[y * grid.width + x],
        !grid.contains(x, y) ==> grid.tile(x, y) == SENTINEL,
{
    let w = grid.width as int;
    let h = grid.height as int;
    if y < 0 {
        assert(y * w <= -w) by (nonlinear_arith)
            requires
                y <= -1,
                w >= 0,
        ;
    } else if y >= h {
        assert(y * w >= h * w) by (nonlinear_arith)
            requires
                y >= h,
                w >= 0,
        ;
        assert(h * w == w * h) by (nonlinear_arith);
    } else {
        assert(0 <= y * w && y * w + w <= h * w) by (nonlinear_arith)
            requires
                0 <= y <= h - 1,
                w >= 0,
        ;
        assert(h * w == w * h) by (nonlinear_arith);
    }
}

/// In a row above the map every column of the map shows the sentinel.
pub proof fn lemma_rows_above_are_sentinel(grid: Grid, x: int, y: int)
    requires
        y < 0,
        x < grid.width,
    ensures
        grid.tile(x, y) == SENTINEL,
{
    assert(y * grid.width <= -1 * grid.width) by (nonlinear_arith)
        requires
            y <= -1,
            grid.width >= 0,
    ;
}

/// In a row below the last stored tile every column from the first on shows
/// the sentinel.
pub proof fn lemma_rows_below_are_sentinel(grid: Grid, x: int, y: int)
    requires
        0 <= x,
        y * grid.width >= grid.tiles.len(),
    ensures
        grid.tile(x, y) == SENTINEL,
{
}

/// Whether a ray that visits the cells `path(0)`, `path(1)`, and so on is
/// stopped on one of the first `limit + 1` of them.
pub open spec fn stops_within(grid: Grid, path: spec_fn(nat) -> (int, int), limit: nat) -> bool {
    exists|k: nat| k <= limit && !grid.is_open(#[trigger] path(k).0, path(k).1)
}

/// Whatever cells a ray visits, it is stopped no later than on the first one
/// whose flattened index misses the store: the march is as long as the way
/// out of the store at most.
pub proof fn lemma_ray_stops_off_the_store(grid: Grid, path: spec_fn(nat) -> (int, int), k: nat)
    requires
        !grid.in_store(path(k).0, path(k).1),
    ensures
        stops_within(grid, path, k),
        grid.probe(path(k).0, path(k).1) == Probe::Hit(SENTINEL),
{
}

/// A tile grid. Width and height are kept as given; nothing ties them to the
/// number of stored tiles.
pub struct TileMap {
    width: u32,
    height: u32,
    tiles: Vec<char>,
}

impl View for TileMap {
    type V = Grid;

    closed spec fn view(&self) -> Grid {
        Grid { width: self.width as nat, height: self.height as nat, tiles: self.tiles@ }
    }
}

/// The glyphs of each row string, in order.
pub open spec fn row_glyphs(rows: Seq<&str>) -> Seq<Seq<char>> {
    Seq::new(rows.len(), |i: int| rows[i]@)
}

impl TileMap {
    /// Builds a map from its rows: the tile store is the rows' characters
    /// joined end to end, and `width` and `height` are recorded as given.
    pub fn new(width: u32, height: u32, rows: &Vec<&str>) -> (map: TileMap)
        ensures
            map@.width == width,
            map@.height == height,
            map@.tiles == row_glyphs(rows@).flatten(),
    {
        let mut tiles: Vec<char> = Vec::new();
        assert(row_glyphs(rows@).take(0).flatten() =~= Seq::<char>::empty());
        for i in 0..rows.len()
            invariant
                tiles@ == row_glyphs(rows@).take(i as int).flatten(),
        {
            let row: &str = rows[i];
            let ghost before = tiles@;
            for glyph in it: row.chars()
                invariant
                    it.seq() == row@,
                    tiles@ == before + row@.take(it.index() as int),
            {
                tiles.push(glyph);
                assert(row@.take(it.index() + 1) =~= row@.take(it.index() as int).push(glyph));
            }
            proof {
                broadcast use Seq::lemma_flatten_push;

                assert(row@.take(row@.len() as int) =~= row@);
                assert(row_glyphs(rows@).take(i + 1) =~= row_glyphs(rows@).take(i as int).push(
                    row@,
                ));
            }
        }
        assert(row_glyphs(rows@).take(rows.len() as int) =~= row_glyphs(rows@));
        TileMap { width, height, tiles }
    }

    /// The glyph at cell `(x, y)`: the stored tile where the flattened index
    /// falls inside the store, the sentinel everywhere else.
    pub fn tile_at(&self, x: i32, y: i32) -> (glyph: char)
        ensures
            glyph == self@.tile(x as int, y as int),
            self@.in_store(x as int, y as int) ==> glyph == self@.tiles[self@.flat_index(
                x as int,
                y as int,
            )],
            !self@.in_store(x as int, y as int) ==> glyph == SENTINEL,
    {
        let row: i64 = y as i64;
        let stride: i64 = self.width as i64;
        assert(-0x8000_0000 * 0xffff_ffff <= row * stride <= 0x7fff_ffff * 0xffff_ffff)
            by (nonlinear_arith)
            requires
                -0x8000_0000 <= row <= 0x7fff_ffff,
                0 <= stride <= 0xffff_ffff,
        ;
        let index: i64 = row * stride + x as i64;
        if index < 0 {
            return SENTINEL;
        }
        let index: u64 = index as u64;
        if index < self.tiles.len() as u64 {
            self.tiles[index as usize]
        } else {
            SENTINEL
        }
    }

    /// The decision of one marching step: whether a ray standing on cell
    /// `(x, y)` goes on, or which glyph stopped it.
    pub fn probe(&self, x: i32, y: i32) -> (found: Probe)
        ensures
            found == self@.probe(x as int, y as int),
    {
        let glyph = self.tile_at(x, y);
        if glyph == EMPTY {
            Probe::Open
        } else {
            Probe::Hit(glyph)
        }
    }

    /// Whether the store holds one tile for each cell of the rectangle.
    pub fn is_consistent(&self) -> (consistent: bool)
        ensures
            consistent == self@.consistent(),
    {
        assert(self.width * self.height <= 0xffff_ffff * 0xffff_ffff) by (nonlinear_arith)
            requires
                self.width <= 0xffff_ffff,
                self.height <= 0xffff_ffff,
        ;
        self.tiles.len() as u64 == self.width as u64 * self.height as u64
    }

    /// The number of columns the map was given.
    pub fn width(&self) -> (width: u32)
        ensures
            width == self@.width,
    {
        self.width
    }

    /// The number of rows the map was given.
    pub fn height(&self) -> (height: u32)
        ensures
            height == self@.height,
    {
        self.height
    }
}

} // verus!
