use vstd::prelude::*;
use crate::config::TileSize;

verus! {

/// A rectangular part of the image that is dispatched as one unit.
#[derive(Clone, Copy, Debug, PartialEq, Eq, Structural)]
pub struct Tile {
    /// Column of the tile's leftmost pixel.
    pub x: u32,
    /// Row of the tile's topmost pixel.
    pub y: u32,
    pub width: u32,
    pub height: u32,
}

/// How many tiles lie side by side, and how many on top of each other.
#[derive(Clone, Copy, Debug, PartialEq, Eq, Structural)]
pub struct TileCount {
    pub x: u32,
    pub y: u32,
}

/// The quotient of `a` by `b`, rounded up.
pub open spec fn div_ceil(a: int, b: int) -> int {
    (a + b - 1) / b
}

/// Number of pieces into which one axis of `extent` pixels is cut.
pub open spec fn axis_count(extent: int, tile_size: TileSize) -> int {
    match tile_size {
        TileSize::Full => 1,
        TileSize::Tile(size) => div_ceil(extent, size as int),
    }
}

/// First pixel of piece `i` along one axis.
pub open spec fn axis_start(i: int, tile_size: TileSize) -> int {
    match tile_size {
        TileSize::Full => 0,
        TileSize::Tile(size) => i * size,
    }
}

/// Number of pixels of piece `i` along one axis of `extent` pixels: a whole
/// tile edge, or what is left of the axis where that is less.
pub open spec fn axis_len(i: int, extent: int, tile_size: TileSize) -> int {
    match tile_size {
        TileSize::Full => extent,
        TileSize::Tile(size) => vstd::math::min((i + 1) * size, extent) - i * size,
    }
}

/// The piece of one axis that holds pixel `p`.
pub open spec fn axis_owner(p: int, tile_size: TileSize) -> int {
    match tile_size {
        TileSize::Full => 0,
        TileSize::Tile(size) => p / (size as int),
    }
}

/// The tile mode can be scheduled: tiles have a positive edge.
pub open spec fn tile_size_ok(tile_size: TileSize) -> bool {
    tile_size matches TileSize::Tile(size) ==> size > 0
}

/// Whether `(x, y)` names a tile of the grid laid over the image.
pub open spec fn in_grid(width: u32, height: u32, tile_size: TileSize, x: int, y: int) -> bool {
    &&& 0 <= x < axis_count(width as int, tile_size)
    &&& 0 <= y < axis_count(height as int, tile_size)
}

/// The tile at grid position `(x, y)`.
pub open spec fn tile_spec(width: u32, height: u32, tile_size: TileSize, x: int, y: int) -> Tile {
    Tile {
        x: axis_start(x, tile_size) as u32,
        y: axis_start(y, tile_size) as u32,
        width: axis_len(x, width as int, tile_size) as u32,
        height: axis_len(y, height as int, tile_size) as u32,
    }
}

impl Tile {
    /// Whether the pixel in column `px` and row `py` belongs to the tile.
    pub open spec fn contains(&self, px: int, py: int) -> bool {
        &&& self.x <= px < self.x + self.width
        &&& self.y <= py < self.y + self.height
    }
}

/// Facts about one axis: the pieces are not empty, lie inside the axis, and
/// follow each other without gap or overlap.
pub proof fn lemma_axis_pieces(extent: int, tile_size: TileSize, i: int)
    requires
        tile_size_ok(tile_size),
        0 <= extent,
        0 <= i < axis_count(extent, tile_size),
    ensures
        0 <= axis_start(i, tile_size) <= extent,
        0 <= axis_len(i, extent, tile_size),
        extent > 0 ==> axis_start(i, tile_size) < extent && 0 < axis_len(i, extent, tile_size),
        axis_start(i, tile_size) + axis_len(i, extent, tile_size) <= extent,
        tile_size matches TileSize::Tile(size) ==> axis_len(i, extent, tile_size) <= size,
        i + 1 < axis_count(extent, tile_size) ==> axis_start(i, tile_size) + axis_len(
            i,
            extent,
            tile_size,
        ) == axis_start(i + 1, tile_size),
        i + 1 == axis_count(extent, tile_size) ==> axis_start(i, tile_size) + axis_len(
            i,
            extent,
            tile_size,
        ) == extent,
{
    match tile_size {
        TileSize::Full => {},
        TileSize::Tile(size) => {
            let s = size as int;
            let c = (extent + s - 1) / s;
            assert(c * s <= extent + s - 1 < c * s + s) by (nonlinear_arith)
                requires
                    s > 0,
                    c == (extent + s - 1) / s,
            ;
            assert(i * s + s <= c * s) by (nonlinear_arith)
                requires
                    i + 1 <= c,
                    s > 0,
            ;
            assert((i + 1) * s == i * s + s) by (nonlinear_arith);
            assert(0 <= i * s) by (nonlinear_arith)
                requires
                    0 <= i,
                    s > 0,
            ;
            if i + 1 < c {
                assert((i + 1) * s + s <= c * s) by (nonlinear_arith)
                    requires
                        i + 2 <= c,
                        s > 0,
                ;
            }
        },
    }
}

/// The piece that holds a pixel of the axis is a piece of the grid, and no
/// other piece holds that pixel.
pub proof fn lemma_axis_owner(extent: int, tile_size: TileSize, p: int, i: int)
    requires
        tile_size_ok(tile_size),
        0 <= p < extent,
    ensures
        0 <= axis_owner(p, tile_size) < axis_count(extent, tile_size),
        axis_start(axis_owner(p, tile_size), tile_size) <= p < axis_start(
            axis_owner(p, tile_size),
            tile_size,
        ) + axis_len(axis_owner(p, tile_size), extent, tile_size),
        (0 <= i < axis_count(extent, tile_size) && axis_start(i, tile_size) <= p < axis_start(
            i,
            tile_size,
        ) + axis_len(i, extent, tile_size)) ==> i == axis_owner(p, tile_size),
{
    match tile_size {
        TileSize::Full => {},
        TileSize::Tile(size) => {
            let s = size as int;
            let c = (extent + s - 1) / s;
            let o = p / s;
            assert(o * s <= p < o * s + s && 0 <= o) by (nonlinear_arith)
                requires
                    s > 0,
                    0 <= p,
                    o == p / s,
            ;
            assert(c * s <= extent + s - 1 < c * s + s) by (nonlinear_arith)
                requires
                    s > 0,
                    c == (extent + s - 1) / s,
            ;
            assert(o < c) by (nonlinear_arith)
                requires
                    o * s <= p,
                    p < extent,
                    extent + s - 1 < c * s + s,
                    s > 0,
            ;
            assert((o + 1) * s == o * s + s) by (nonlinear_arith);
            if 0 <= i < c && i * s <= p < i * s + axis_len(i, extent, tile_size) {
                assert((i + 1) * s == i * s + s) by (nonlinear_arith);
                assert(p < i * s + s);
                assert(i == o) by (nonlinear_arith)
                    requires
                        i * s <= p < i * s + s,
                        o * s <= p < o * s + s,
                        s > 0,
                ;
            }
        },
    }
}

/// Whether the pixel in column `px` and row `py` is a pixel of the image.
pub open spec fn in_image(width: u32, height: u32, px: int, py: int) -> bool {
    0 <= px < width && 0 <= py < height
}

/// The tiles cut the image up: each tile lies inside the image, each pixel of
/// the image lies in the tile that `axis_owner` names, and in no other.
pub proof fn lemma_tiles_partition_image(width: u32, height: u32, tile_size: TileSize)
    requires
        tile_size_ok(tile_size),
    ensures
        forall|x: int, y: int| #[trigger]
            in_grid(width, height, tile_size, x, y) ==> {
                let t = tile_spec(width, height, tile_size, x, y);
                &&& t.x == axis_start(x, tile_size)
                &&& t.y == axis_start(y, tile_size)
                &&& t.width == axis_len(x, width as int, tile_size)
                &&& t.height == axis_len(y, height as int, tile_size)
                &&& t.x + t.width <= width
                &&& t.y + t.height <= height
                &&& (width > 0 && height > 0 ==> t.width > 0 && t.height > 0)
            },
        forall|px: int, py: int| #[trigger]
            in_image(width, height, px, py) ==> {
                let x = axis_owner(px, tile_size);
                let y = axis_owner(py, tile_size);
                &&& in_grid(width, height, tile_size, x, y)
                &&& tile_spec(width, height, tile_size, x, y).contains(px, py)
            },
        forall|x: int, y: int, px: int, py: int|
            in_grid(width, height, tile_size, x, y) && #[trigger] tile_spec(
                width,
                height,
                tile_size,
                x,
                y,
            ).contains(px, py) ==> {
                &&& in_image(width, height, px, py)
                &&& x == axis_owner(px, tile_size)
                &&& y == axis_owner(py, tile_size)
            },
{
    assert forall|x: int, y: int| #[trigger]
        in_grid(width, height, tile_size, x, y) implies {
        let t = tile_spec(width, height, tile_size, x, y);
        &&& t.x == axis_start(x, tile_size)
        &&& t.y == axis_start(y, tile_size)
        &&& t.width == axis_len(x, width as int, tile_size)
        &&& t.height == axis_len(y, height as int, tile_size)
        &&& t.x + t.width <= width
        &&& t.y + t.height <= height
        &&& (width > 0 && height > 0 ==> t.width > 0 && t.height > 0)
    } by {
        lemma_axis_pieces(width as int, tile_size, x);
        lemma_axis_pieces(height as int, tile_size, y);
    }
    assert forall|px: int, py: int| #[trigger] in_image(width, height, px, py) implies {
        let x = axis_owner(px, tile_size);
        let y = axis_owner(py, tile_size);
        &&& in_grid(width, height, tile_size, x, y)
        &&& tile_spec(width, height, tile_size, x, y).contains(px, py)
    } by {
        let x = axis_owner(px, tile_size);
        let y = axis_owner(py, tile_size);
        lemma_axis_owner(width as int, tile_size, px, x);
        lemma_axis_owner(height as int, tile_size, py, y);
        lemma_axis_pieces(width as int, tile_size, x);
        lemma_axis_pieces(height as int, tile_size, y);
    }
    assert forall|x: int, y: int, px: int, py: int|
        in_grid(width, height, tile_size, x, y) && #[trigger] tile_spec(
            width,
            height,
            tile_size,
            x,
            y,
        ).contains(px, py) implies {
        &&& in_image(width, height, px, py)
        &&& x == axis_owner(px, tile_size)
        &&& y == axis_owner(py, tile_size)
    } by {
        lemma_axis_pieces(width as int, tile_size, x);
        lemma_axis_pieces(height as int, tile_size, y);
        lemma_axis_owner(width as int, tile_size, px, x);
        lemma_axis_owner(height as int, tile_size, py, y);
    }
}

/// Counts the tiles along both axes: one tile in `Full` mode, else the image
/// extent divided by the tile edge, rounded up.
pub fn count_tiles(width: u32, height: u32, tile_size: TileSize) -> (count: TileCount)
    requires
        tile_size_ok(tile_size),
    ensures
        count.x == axis_count(width as int, tile_size),
        count.y == axis_count(height as int, tile_size),
{
    match tile_size {
        TileSize::Full => TileCount { x: 1, y: 1 },
        TileSize::Tile(size) => TileCount {
            x: axis_pieces(width, size),
            y: axis_pieces(height, size),
        },
    }
}

/// `extent` divided by `size`, rounded up.
fn axis_pieces(extent: u32, size: u32) -> (n: u32)
    requires
        size > 0,
    ensures
        n == div_ceil(extent as int, size as int),
{
    let e: u64 = extent as u64;
    let s: u64 = size as u64;
    let n: u64 = (e + s - 1) / s;
    assert(n <= e) by (nonlinear_arith)
        requires
            n == (e + s - 1) / (s as int),
            s >= 1,
            e >= 0,
    ;
    n as u32
}

/// Start and length of piece `i` along one axis.
fn axis_piece(i: u32, extent: u32, tile_size: TileSize) -> (piece: (u32, u32))
    requires
        tile_size_ok(tile_size),
        i < axis_count(extent as int, tile_size),
    ensures
        piece.0 == axis_start(i as int, tile_size),
        piece.1 == axis_len(i as int, extent as int, tile_size),
{
    proof {
        lemma_axis_pieces(extent as int, tile_size, i as int);
    }
    match tile_size {
        TileSize::Full => (0, extent),
        TileSize::Tile(size) => {
            let s: u64 = size as u64;
            let start: u64 = i as u64 * s;
            assert((i + 1) * s == i * s + s) by (nonlinear_arith);
            let next: u64 = (i as u64 + 1) * s;
            let end: u64 = if next <= extent as u64 {
                next
            } else {
                extent as u64
            };
            (start as u32, (end - start) as u32)
        },
    }
}

/// The tile at grid position `(x, y)`: whole tiles inside the image, and at
/// the far edges what is left of it.
pub fn tile_at(width: u32, height: u32, tile_size: TileSize, x: u32, y: u32) -> (tile: Tile)
    requires
        tile_size_ok(tile_size),
        in_grid(width, height, tile_size, x as int, y as int),
    ensures
        tile == tile_spec(width, height, tile_size, x as int, y as int),
        tile.x == axis_start(x as int, tile_size),
        tile.y == axis_start(y as int, tile_size),
        tile.width == axis_len(x as int, width as int, tile_size),
        tile.height == axis_len(y as int, height as int, tile_size),
{
    let (left, w) = axis_piece(x, width, tile_size);
    let (top, h) = axis_piece(y, height, tile_size);
    Tile { x: left, y: top, width: w, height: h }
}

/// All tiles of the image, column by column, each column from top to bottom.
pub open spec fn tiles_spec(width: u32, height: u32, tile_size: TileSize) -> Seq<Tile> {
    let rows = axis_count(height as int, tile_size);
    Seq::new(
        (axis_count(width as int, tile_size) * rows) as nat,
        |k: int| tile_spec(width, height, tile_size, k / rows, k % rows),
    )
}

/// Lists all tiles of the image, column by column.
pub fn tiles(width: u32, height: u32, tile_size: TileSize) -> (list: Vec<Tile>)
    requires
        tile_size_ok(tile_size),
        axis_count(width as int, tile_size) * axis_count(height as int, tile_size) <= usize::MAX,
    ensures
        list@ == tiles_spec(width, height, tile_size),
{
    let count = count_tiles(width, height, tile_size);
    let ghost rows = count.y as int;
    let mut list: Vec<Tile> = Vec::new();
    let mut x: u32 = 0;
    while x < count.x
        invariant
            tile_size_ok(tile_size),
            count.x == axis_count(width as int, tile_size),
            count.y == axis_count(height as int, tile_size),
            rows == count.y,
            x <= count.x,
            list@.len() == x * rows,
            forall|k: int|
                0 <= k < list@.len() ==> #[trigger] list@[k] == tile_spec(
                    width,
                    height,
                    tile_size,
                    k / rows,
                    k % rows,
                ),
        decreases count.x - x,
    {
        let mut y: u32 = 0;
        while y < count.y
            invariant
                tile_size_ok(tile_size),
                count.x == axis_count(width as int, tile_size),
                count.y == axis_count(height as int, tile_size),
                rows == count.y,
                x < count.x,
                y <= count.y,
                list@.len() == x * rows + y,
                forall|k: int|
                    0 <= k < list@.len() ==> #[trigger] list@[k] == tile_spec(
                        width,
                        height,
                        tile_size,
                        k / rows,
                        k % rows,
                    ),
            decreases count.y - y,
        {
            let tile = tile_at(width, height, tile_size, x, y);
            proof {
                let k = x * rows + y;
                assert(k / rows == x && k % rows == y) by (nonlinear_arith)
                    requires
                        k == x * rows + y,
                        0 <= y < rows,
                        0 <= x,
                ;
            }
            list.push(tile);
            y = y + 1;
        }
        assert(x * rows + rows == (x + 1) * rows) by (nonlinear_arith);
        x = x + 1;
    }
    assert(list@ =~= tiles_spec(width, height, tile_size));
    list
}

/// An axis is cut into no more pieces than a `u32` can count.
pub proof fn lemma_axis_count_bound(extent: int, tile_size: TileSize)
    requires
        tile_size_ok(tile_size),
        0 <= extent <= u32::MAX,
    ensures
        0 <= axis_count(extent, tile_size) <= u32::MAX,
        axis_count(extent, tile_size) <= vstd::math::max(extent, 1),
{
    match tile_size {
        TileSize::Full => {},
        TileSize::Tile(size) => {
            let s = size as int;
            assert(0 <= (extent + s - 1) / s <= extent) by (nonlinear_arith)
                requires
                    s >= 1,
                    extent >= 0,
            ;
        },
    }
}

/// The place in the list of tiles of the tile at grid position `(x, y)`.
pub open spec fn list_index(height: u32, tile_size: TileSize, x: int, y: int) -> int {
    x * axis_count(height as int, tile_size) + y
}

/// The list of tiles holds the tile of each grid position once, at the
/// place that `list_index` names.
pub proof fn lemma_tiles_list(width: u32, height: u32, tile_size: TileSize, k: int)
    requires
        tile_size_ok(tile_size),
        0 <= k < tiles_spec(width, height, tile_size).len(),
    ensures
        ({
            let rows = axis_count(height as int, tile_size);
            &&& in_grid(width, height, tile_size, k / rows, k % rows)
            &&& list_index(height, tile_size, k / rows, k % rows) == k
            &&& tiles_spec(width, height, tile_size)[k] == tile_spec(
                width,
                height,
                tile_size,
                k / rows,
                k % rows,
            )
        }),
        forall|x: int, y: int| #[trigger]
            in_grid(width, height, tile_size, x, y) && list_index(height, tile_size, x, y) == k ==> x
                == k / axis_count(height as int, tile_size) && y == k % axis_count(
                height as int,
                tile_size,
            ),
{
    let cols = axis_count(width as int, tile_size);
    let rows = axis_count(height as int, tile_size);
    lemma_axis_count_bound(width as int, tile_size);
    lemma_axis_count_bound(height as int, tile_size);
    assert(rows > 0 && cols > 0) by (nonlinear_arith)
        requires
            0 <= k < cols * rows,
            0 <= rows,
            0 <= cols,
    ;
    assert(0 <= k % rows < rows && 0 <= k / rows < cols && (k / rows) * rows + k % rows == k)
        by (nonlinear_arith)
        requires
            0 <= k < cols * rows,
            rows > 0,
    ;
    assert forall|x: int, y: int| #[trigger]
        in_grid(width, height, tile_size, x, y) && list_index(
            height,
            tile_size,
            x,
            y,
        ) == k implies x == k / rows && y == k % rows by {
        assert(x == k / rows && y == k % rows) by (nonlinear_arith)
            requires
                k == x * rows + y,
                0 <= y < rows,
                0 <= x,
        ;
    }
}

/// The list of tiles cuts the image up: each tile of the list lies inside
/// the image, and each pixel of the image lies in one tile of the list and
/// in no second one.
pub proof fn lemma_tiles_list_partitions_image(width: u32, height: u32, tile_size: TileSize)
    requires
        tile_size_ok(tile_size),
    ensures
        forall|k: int|
            0 <= k < tiles_spec(width, height, tile_size).len() ==> {
                let t = #[trigger] tiles_spec(width, height, tile_size)[k];
                t.x + t.width <= width && t.y + t.height <= height
            },
        forall|px: int, py: int| #[trigger]
            in_image(width, height, px, py) ==> {
                let k = list_index(
                    height,
                    tile_size,
                    axis_owner(px, tile_size),
                    axis_owner(py, tile_size),
                );
                &&& 0 <= k < tiles_spec(width, height, tile_size).len()
                &&& tiles_spec(width, height, tile_size)[k].contains(px, py)
            },
        forall|k: int, px: int, py: int|
            0 <= k < tiles_spec(width, height, tile_size).len() && #[trigger] tiles_spec(
                width,
                height,
                tile_size,
            )[k].contains(px, py) ==> in_image(width, height, px, py) && k == list_index(
                height,
                tile_size,
                axis_owner(px, tile_size),
                axis_owner(py, tile_size),
            ),
{
    let cols = axis_count(width as int, tile_size);
    let rows = axis_count(height as int, tile_size);
    let list = tiles_spec(width, height, tile_size);
    lemma_tiles_partition_image(width, height, tile_size);
    assert forall|k: int| 0 <= k < list.len() implies {
        let t = #[trigger] list[k];
        t.x + t.width <= width && t.y + t.height <= height
    } by {
        lemma_tiles_list(width, height, tile_size, k);
        assert(in_grid(width, height, tile_size, k / rows, k % rows));
    }
    assert forall|px: int, py: int| #[trigger] in_image(width, height, px, py) implies {
        let k = list_index(height, tile_size, axis_owner(px, tile_size), axis_owner(py, tile_size));
        &&& 0 <= k < list.len()
        &&& list[k].contains(px, py)
    } by {
        let x = axis_owner(px, tile_size);
        let y = axis_owner(py, tile_size);
        let k = x * rows + y;
        assert(in_grid(width, height, tile_size, x, y));
        assert(0 <= k < cols * rows && k / rows == x && k % rows == y) by (nonlinear_arith)
            requires
                k == x * rows + y,
                0 <= x < cols,
                0 <= y < rows,
        {
            assert((x + 1) * rows <= cols * rows);
            assert((x + 1) * rows == x * rows + rows);
            assert(0 <= x * rows);
        }
    }
    assert forall|k: int, px: int, py: int|
        0 <= k < list.len() && #[trigger] list[k].contains(px, py) implies in_image(
        width,
        height,
        px,
        py,
    ) && k == list_index(
        height,
        tile_size,
        axis_owner(px, tile_size),
        axis_owner(py, tile_size),
    ) by {
        lemma_tiles_list(width, height, tile_size, k);
        assert(in_grid(width, height, tile_size, k / rows, k % rows));
        assert(tile_spec(width, height, tile_size, k / rows, k % rows).contains(px, py));
    }
}

} // verus!
