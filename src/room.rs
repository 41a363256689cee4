//! The tile grid that the player moves against.

use vstd::prelude::*;

use vstd::arithmetic::div_mod::{lemma_fundamental_div_mod, lemma_mod_bound};

use crate::geom::{floor_div, pixel, pixel_of, Rect, RectView};

verus! {

/// What fills one cell of the grid.
#[derive(Clone, Copy, Debug, PartialEq, Eq, Structural)]
pub enum TileKind {
    Empty,
    Filled,
}

impl TileKind {
    pub open spec fn flipped(self) -> TileKind {
        match self {
            TileKind::Empty => TileKind::Filled,
            TileKind::Filled => TileKind::Empty,
        }
    }
}

/// Why an operation on a room was refused.
#[derive(Clone, Copy, Debug, PartialEq, Eq, Structural)]
pub enum RoomError {
    /// A tile index lies outside the grid.
    OutOfBounds { x: u32, y: u32, width: u32, height: u32 },
    /// Stored tiles do not match the stored dimensions.
    InvalidGridData { len: usize, width: u32, height: u32 },
    /// A tile size of zero.
    Misconfiguration,
}

/// The abstract value of a [`Room`]: its dimensions in tiles, the edge of a
/// tile in pixels, and its tiles in row-major order.
pub struct RoomView {
    pub width: u32,
    pub height: u32,
    pub tile_size: u32,
    pub tiles: Seq<TileKind>,
}

impl RoomView {
    pub open spec fn wf(self) -> bool {
        &&& self.tiles.len() == self.width * self.height
        &&& self.width * self.height <= usize::MAX
        &&& self.tile_size > 0
    }

    /// The kind of tile `(x, y)`; every tile outside the grid is empty.
    pub open spec fn kind_at(self, x: int, y: int) -> TileKind {
        if 0 <= x < self.width && 0 <= y < self.height {
            self.tiles[y * self.width + x]
        } else {
            TileKind::Empty
        }
    }

    /// The column or row of the tile that holds coordinate `c` (in nanopixels).
    pub open spec fn index_of(self, c: int) -> int {
        pixel_of(c) / (self.tile_size as int)
    }

    /// The kind of the tile that holds the point `(x, y)`.
    pub open spec fn kind_at_point(self, x: int, y: int) -> TileKind {
        self.kind_at(self.index_of(x), self.index_of(y))
    }

    /// The pixel bounds of tile `(x, y)`.
    pub open spec fn bounds_of(self, x: int, y: int) -> RectView {
        RectView {
            x: x * self.tile_size,
            y: y * self.tile_size,
            w: self.tile_size as int,
            h: self.tile_size as int,
        }
    }

    /// The width of the room in pixels.
    pub open spec fn pixel_width(self) -> int {
        self.width * self.tile_size
    }
}

/// A room of `width` by `height` tiles with a solid floor along its bottom row.
pub open spec fn floor_room(width: u32, height: u32, tile_size: u32) -> RoomView {
    RoomView {
        width,
        height,
        tile_size,
        tiles: Seq::new(
            (width * height) as nat,
            |i: int|
                if i >= width * (height - 1) {
                    TileKind::Filled
                } else {
                    TileKind::Empty
                },
        ),
    }
}

/// What loading a room from its stored parts yields.
pub open spec fn room_from_parts(width: u32, height: u32, tile_size: u32, tiles: Seq<TileKind>) -> Result<
    RoomView,
    RoomError,
> {
    if tile_size == 0 {
        Err(RoomError::Misconfiguration)
    } else if tiles.len() != width * height {
        Err(RoomError::InvalidGridData { len: tiles.len() as usize, width, height })
    } else {
        Ok(RoomView { width, height, tile_size, tiles })
    }
}

/// One tile of a room, with its index, its kind and its pixel bounds.
#[derive(Clone, Copy, Debug)]
pub struct Tile {
    pub x: i64,
    pub y: i64,
    pub kind: TileKind,
    pub rect: Rect,
}

/// A grid of tiles.
#[derive(Debug)]
pub struct Room {
    width: u32,
    height: u32,
    tiles: Vec<TileKind>,
    tile_size: u32,
}

impl View for Room {
    type V = RoomView;

    closed spec fn view(&self) -> RoomView {
        RoomView {
            width: self.width,
            height: self.height,
            tile_size: self.tile_size,
            tiles: self.tiles@,
        }
    }
}

/// Dividing a pixel within `u32::MAX` of the origin by a tile size gives
/// an index no further out.
proof fn lemma_index_range(p: int, ts: int)
    requires
        -(u32::MAX as int) <= p <= u32::MAX,
        0 < ts,
    ensures
        -(u32::MAX as int) <= p / ts <= u32::MAX,
{
    lemma_fundamental_div_mod(p, ts);
    lemma_mod_bound(p, ts);
    assert(-(u32::MAX as int) <= p / ts <= u32::MAX) by (nonlinear_arith)
        requires
            -(u32::MAX as int) <= p <= u32::MAX,
            0 < ts,
            p == ts * (p / ts) + p % ts,
            0 <= p % ts < ts,
    ;
}

proof fn lemma_row_major_index(x: int, y: int, w: int, h: int)
    requires
        0 <= x < w,
        0 <= y < h,
    ensures
        0 <= y * w <= y * w + x < w * h,
{
    assert(0 <= y * w <= y * w + x < w * h) by (nonlinear_arith)
        requires
            0 <= x < w,
            0 <= y < h,
    ;
}

impl Room {
    /// A room with a solid floor along its bottom row and every other tile empty.
    pub fn new(width: u32, height: u32, tile_size: u32) -> (r: Room)
        requires
            height > 0,
            tile_size > 0,
            width * height <= usize::MAX,
        ensures
            r@ == floor_room(width, height, tile_size),
            r@.wf(),
    {
        let n: usize = width as usize * height as usize;
        proof {
            assert(width * height - width == width * (height - 1) && width <= width * height)
                by (nonlinear_arith)
                requires
                    height > 0,
            ;
        }
        let floor_start: usize = n - width as usize;
        let mut tiles: Vec<TileKind> = Vec::new();
        let mut i: usize = 0;
        while i < n
            invariant
                i <= n,
                n == width * height,
                floor_start == width * (height - 1),
                tiles@.len() == i,
                forall|j: int|
                    0 <= j < i ==> tiles@[j] == (if j >= floor_start {
                        TileKind::Filled
                    } else {
                        TileKind::Empty
                    }),
            decreases n - i,
        {
            if i >= floor_start {
                tiles.push(TileKind::Filled);
            } else {
                tiles.push(TileKind::Empty);
            }
            i = i + 1;
        }
        let r = Room { width, height, tiles, tile_size };
        assert(r@.tiles =~= floor_room(width, height, tile_size).tiles);
        r
    }

    pub fn width(&self) -> (r: u32)
        ensures
            r == self@.width,
    {
        self.width
    }

    pub fn height(&self) -> (r: u32)
        ensures
            r == self@.height,
    {
        self.height
    }

    pub fn tile_size(&self) -> (r: u32)
        ensures
            r == self@.tile_size,
    {
        self.tile_size
    }

    /// The tiles in row-major order.
    pub fn tiles(&self) -> (r: &Vec<TileKind>)
        ensures
            r@ == self@.tiles,
    {
        &self.tiles
    }

    /// The tile at index `(x, y)`; outside the grid, on any side, it is
    /// empty.
    pub fn tile_at_index(&self, x: i64, y: i64) -> (r: Tile)
        requires
            self@.wf(),
        ensures
            r.x == x,
            r.y == y,
            r.kind == self@.kind_at(x as int, y as int),
            r.rect@ == self@.bounds_of(x as int, y as int),
            r.rect.wf(),
    {
        let kind = if 0 <= x && x < self.width as i64 && 0 <= y && y < self.height as i64 {
            proof {
                lemma_row_major_index(x as int, y as int, self.width as int, self.height as int);
            }
            self.tiles[y as usize * self.width as usize + x as usize]
        } else {
            TileKind::Empty
        };
        let ts: i128 = self.tile_size as i128;
        proof {
            assert(-0x1_0000_0000_0000_0000_0000_0000 <= x * ts <= 0x1_0000_0000_0000_0000_0000_0000
                && -0x1_0000_0000_0000_0000_0000_0000 <= y * ts
                <= 0x1_0000_0000_0000_0000_0000_0000) by (nonlinear_arith)
                requires
                    i64::MIN <= x <= i64::MAX,
                    i64::MIN <= y <= i64::MAX,
                    0 < ts <= u32::MAX,
            ;
        }
        let rect = Rect::new(x as i128 * ts, y as i128 * ts, ts, ts);
        Tile { x, y, kind, rect }
    }

    /// The tile that holds the point `(x, y)`, given in nanopixels. A point
    /// left of or above the grid lies in a negative column or row, where the
    /// tile is empty.
    pub fn tile_at_coord(&self, x: i128, y: i128) -> (r: Tile)
        requires
            self@.wf(),
        ensures
            r.x == self@.index_of(x as int),
            r.y == self@.index_of(y as int),
            -(u32::MAX as int) <= r.x <= u32::MAX,
            -(u32::MAX as int) <= r.y <= u32::MAX,
            r.kind == self@.kind_at_point(x as int, y as int),
            r.rect@ == self@.bounds_of(r.x as int, r.y as int),
            r.rect.wf(),
    {
        let ts: i128 = self.tile_size as i128;
        let px: i128 = pixel(x) as i128;
        let py: i128 = pixel(y) as i128;
        let col: i128 = floor_div(px, ts);
        let row: i128 = floor_div(py, ts);
        proof {
            lemma_index_range(px as int, ts as int);
            lemma_index_range(py as int, ts as int);
        }
        self.tile_at_index(col as i64, row as i64)
    }

    /// Flips tile `(x, y)` between empty and filled.
    pub fn toggle_tile_at_index(&mut self, x: u32, y: u32) -> (r: Result<(), RoomError>)
        requires
            old(self)@.wf(),
        ensures
            final(self)@.wf(),
            x < old(self)@.width && y < old(self)@.height ==> {
                &&& r == Ok::<(), RoomError>(())
                &&& final(self)@ == (RoomView {
                    tiles: old(self)@.tiles.update(
                        y * old(self)@.width + x,
                        old(self)@.kind_at(x as int, y as int).flipped(),
                    ),
                    ..old(self)@
                })
            },
            !(x < old(self)@.width && y < old(self)@.height) ==> {
                &&& r == Err::<(), RoomError>(
                    RoomError::OutOfBounds {
                        x,
                        y,
                        width: old(self)@.width,
                        height: old(self)@.height,
                    },
                )
                &&& final(self)@ == old(self)@
            },
    {
        if !(x < self.width && y < self.height) {
            return Err(RoomError::OutOfBounds { x, y, width: self.width, height: self.height });
        }
        proof {
            lemma_row_major_index(x as int, y as int, self.width as int, self.height as int);
        }
        let i: usize = y as usize * self.width as usize + x as usize;
        let kind = match self.tiles[i] {
            TileKind::Empty => TileKind::Filled,
            TileKind::Filled => TileKind::Empty,
        };
        self.tiles.set(i, kind);
        Ok(())
    }

    /// A room from its stored parts, refused unless the tile count matches
    /// the dimensions and the tile size is positive.
    pub fn from_parts(width: u32, height: u32, tile_size: u32, tiles: Vec<TileKind>) -> (r: Result<
        Room,
        RoomError,
    >)
        ensures
            match (r, room_from_parts(width, height, tile_size, tiles@)) {
                (Ok(room), Ok(v)) => room@ == v,
                (Err(e), Err(f)) => e == f,
                _ => false,
            },
    {
        if tile_size == 0 {
            return Err(RoomError::Misconfiguration);
        }
        proof {
            assert(width * height <= u64::MAX) by (nonlinear_arith)
                requires
                    width <= u32::MAX,
                    height <= u32::MAX,
            ;
        }
        let n: u64 = width as u64 * height as u64;
        if tiles.len() as u64 != n {
            return Err(RoomError::InvalidGridData { len: tiles.len(), width, height });
        }
        Ok(Room { width, height, tiles, tile_size })
    }
}

impl Clone for Room {
    fn clone(&self) -> (r: Room)
        ensures
            r@ == self@,
    {
        let tiles = self.tiles.clone();
        assert(tiles@ =~= self.tiles@);
        Room { width: self.width, height: self.height, tiles, tile_size: self.tile_size }
    }
}

impl Default for Room {
    /// A room of 20 by 10 tiles of 16 pixels with a solid floor.
    fn default() -> (r: Room)
        ensures
            r@ == floor_room(20, 10, 16),
    {
        Room::new(20, 10, 16)
    }
}

/// Storing a room as its parts and loading it back gives the same room.
pub proof fn lemma_parts_round_trip(room: RoomView)
    requires
        room.wf(),
    ensures
        room_from_parts(room.width, room.height, room.tile_size, room.tiles) == Ok::<
            RoomView,
            RoomError,
        >(room),
{
}

} // verus!
