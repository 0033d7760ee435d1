//! Facts about generated tilings: their size, where their corners lie, how the
//! two tiles of a square fit together, how many grid lines there are, and that
//! a format always yields the same tiling.

use vstd::prelude::*;
use crate::tiling::{
    diagonal_line, lemma_reps_bounds, lemma_square_index, left_tile, offset_bottom, offset_top,
    point, right_tile, size, tiling_of, valid_line_reps, valid_reps, Tiling, TilingFormat, Vertex,
};

verus! {

/// Twice the signed area enclosed by the edges of `p` from corner `k` on, each
/// edge running to the next corner and the last back to the first.
pub open spec fn edge_sum(p: Seq<Vertex>, k: int) -> int
    decreases p.len() - k,
{
    if k < 0 || k >= p.len() {
        0
    } else {
        let (a, b) = (p[k], p[(k + 1) % (p.len() as int)]);
        (a.x * b.y - b.x * a.y) + edge_sum(p, k + 1)
    }
}

/// Twice the signed area of the polygon `p`, in square steps (shoelace formula).
pub open spec fn twice_area(p: Seq<Vertex>) -> int {
    edge_sum(p, 0)
}

/// Every tiling of valid repetition counts has two tiles for each of its
/// `(reps_x * PATTERN_SIZE_SQUARES) * (reps_y * PATTERN_SIZE_SQUARES)` squares.
pub proof fn lemma_tile_count(reps_x: int, reps_y: int)
    requires
        valid_reps(reps_x, reps_y),
    ensures
        tiling_of(reps_x, reps_y).tiles.len() == 2 * reps_x * size() * reps_y * size(),
{
    assert(2 * (reps_x * 5) * (reps_y * 5) == 2 * reps_x * 5 * reps_y * 5) by (nonlinear_arith);
}

/// The number of tiles of each format on offer.
pub proof fn lemma_format_tile_count(format: TilingFormat)
    ensures
        tiling_of(format.reps_x(), format.reps_y()).tiles.len() == 2 * format.reps_x() * size()
            * format.reps_y() * size(),
        format == TilingFormat::F5X5 ==> tiling_of(format.reps_x(), format.reps_y()).tiles.len()
            == 50,
        format == TilingFormat::F10X10 ==> tiling_of(format.reps_x(), format.reps_y()).tiles.len()
            == 200,
        format == TilingFormat::F10X15 ==> tiling_of(format.reps_x(), format.reps_y()).tiles.len()
            == 300,
        format == TilingFormat::F15X15 ==> tiling_of(format.reps_x(), format.reps_y()).tiles.len()
            == 450,
{
    let (a, b) = (format.reps_x(), format.reps_y());
    assert(1 <= a <= 3 && 1 <= b <= 3);
    assert(2 * (a * 5) * (b * 5) <= 450) by (nonlinear_arith)
        requires
            1 <= a <= 3,
            1 <= b <= 3,
    ;
    lemma_tile_count(format.reps_x(), format.reps_y());
}

/// Every corner of every tile lies in the area of the tiling: between `0` and
/// `width * PATTERN_SIZE_SQUARES` steps across, and between `0` and
/// `height * PATTERN_SIZE_SQUARES` steps down.
pub proof fn lemma_tiles_within_area(reps_x: int, reps_y: int, i: int, k: int)
    requires
        valid_reps(reps_x, reps_y),
        0 <= i < tiling_of(reps_x, reps_y).tiles.len(),
        0 <= k < 4,
    ensures
        tiling_of(reps_x, reps_y).tiles[i].len() == 4,
        0 <= tiling_of(reps_x, reps_y).tiles[i][k].x <= tiling_of(reps_x, reps_y).width * size(),
        0 <= tiling_of(reps_x, reps_y).tiles[i][k].y <= tiling_of(reps_x, reps_y).height * size(),
{
    lemma_reps_bounds(reps_x, reps_y);
    let (width, height) = (reps_x * size(), reps_y * size());
    let square = i / 2;
    let (x, y) = (square % width, square / width);
    assert(i < 2 * width * height);
    assert(0 <= square < width * height);
    assert(0 <= y < height && 0 <= x < width) by (nonlinear_arith)
        requires
            0 <= square < width * height,
            width > 0,
            x == square % width,
            y == square / width,
    ;
    assert(0 <= x * 5 && (x + 1) * 5 <= width * 5 && 0 <= y * 5 && (y + 1) * 5 <= height * 5)
        by (nonlinear_arith)
        requires
            0 <= y < height,
            0 <= x < width,
    ;
}

/// The two tiles of a square meet along its boundary: they share exactly the
/// boundary's two end points, and their areas, both non-negative, add up to
/// the square's area. So together they cover the square with no gap and no
/// overlap.
pub proof fn lemma_square_halves(reps_x: int, reps_y: int, x: int, y: int)
    requires
        valid_reps(reps_x, reps_y),
        0 <= x < reps_x * size(),
        0 <= y < reps_y * size(),
    ensures
        ({
            let width = reps_x * size();
            let left = tiling_of(reps_x, reps_y).tiles[2 * (y * width + x)];
            let right = tiling_of(reps_x, reps_y).tiles[2 * (y * width + x) + 1];
            &&& left[1] == right[0]
            &&& left[2] == right[3]
            &&& left[1] != left[2]
            &&& left.to_set().intersect(right.to_set()) == set![left[1], left[2]]
            &&& twice_area(left) >= 0
            &&& twice_area(right) >= 0
            &&& twice_area(left) + twice_area(right) == 2 * size() * size()
        }),
{
    lemma_reps_bounds(reps_x, reps_y);
    let (width, height) = (reps_x * size(), reps_y * size());
    lemma_square_index(width, x, y);
    assert(y * width + x < width * height) by (nonlinear_arith)
        requires
            0 <= x < width,
            0 <= y < height,
    ;
    let left = tiling_of(reps_x, reps_y).tiles[2 * (y * width + x)];
    let right = tiling_of(reps_x, reps_y).tiles[2 * (y * width + x) + 1];
    assert(left == left_tile(x, y));
    assert(right == right_tile(x, y));
    let (sx, sy) = (x * 5, y * 5);
    assert(0 <= sx && sx + 5 <= width * 5 && 0 <= sy && sy + 5 <= height * 5) by (nonlinear_arith)
        requires
            0 <= y < height,
            0 <= x < width,
            sx == x * 5,
            sy == y * 5,
    ;
    let (t, b) = (offset_top(y), offset_bottom(y));
    assert(1 <= t <= 5 && 0 <= b <= 4 && b == t - 1);
    let (pa, pb, pc, pd) = (point(sx, sy), point(sx + t, sy), point(sx + b, sy + 5), point(sx, sy + 5));
    let (pe, pf) = (point(sx + 5, sy), point(sx + 5, sy + 5));
    assert(left =~= seq![pa, pb, pc, pd]);
    assert(right =~= seq![pb, pe, pf, pc]);
    assert(left.to_set().intersect(right.to_set()) =~= set![pb, pc]);
    reveal_with_fuel(edge_sum, 5);
    assert(twice_area(left) == 5 * (t + b)) by (nonlinear_arith)
        requires
            twice_area(left) == (sx * sy - (sx + t) * sy) + ((sx + t) * (sy + 5) - (sx + b) * sy) + (
            (sx + b) * (sy + 5) - sx * (sy + 5)) + (sx * sy - sx * (sy + 5)),
    ;
    assert(twice_area(right) == 5 * (10 - t - b)) by (nonlinear_arith)
        requires
            twice_area(right) == ((sx + t) * sy - (sx + 5) * sy) + ((sx + 5) * (sy + 5) - (sx + 5)
                * sy) + ((sx + 5) * (sy + 5) - (sx + b) * (sy + 5)) + ((sx + b) * sy - (sx + t) * (
            sy + 5)),
    ;
}

/// Every tiling of valid repetition counts has `width - 1` vertical lines, then
/// `height - 1` horizontal ones, then `width - 1 + reps_y` diagonals that move
/// `reps_y` squares to the left from the top edge to the bottom edge.
pub proof fn lemma_line_families(reps_x: int, reps_y: int)
    requires
        valid_line_reps(reps_x, reps_y),
    ensures
        ({
            let lines = tiling_of(reps_x, reps_y).lines;
            let (v, h) = (reps_x * size() - 1, reps_y * size() - 1);
            &&& lines.len() == v + h + (v + reps_y)
            &&& forall|k: int| 0 <= k < v ==> #[trigger] lines[k][0].x == lines[k][1].x
            &&& forall|k: int| v <= k < v + h ==> #[trigger] lines[k][0].y == lines[k][1].y
            &&& forall|k: int|
                v + h <= k < lines.len() ==> #[trigger] lines[k][0].x - lines[k][1].x == reps_y
                    * size()
        }),
{
    let lines = tiling_of(reps_x, reps_y).lines;
    let (v, h) = (reps_x * size() - 1, reps_y * size() - 1);
    assert forall|k: int| v + h <= k < lines.len() implies #[trigger] lines[k][0].x - lines[k][1].x
        == reps_y * size() by {
        let j = k - v - h;
        assert(0 <= (j + 1) * 5 <= (reps_x * 5 + reps_y) * 5) by (nonlinear_arith)
            requires
                0 <= j < reps_x * 5 - 1 + reps_y,
        ;
        assert(-reps_y * 5 <= (j + 1 - reps_y) * 5 <= (reps_x * 5 + reps_y) * 5) by (nonlinear_arith)
            requires
                0 <= j < reps_x * 5 - 1 + reps_y,
                reps_y >= 1,
        ;
        assert(lines[k] == diagonal_line(reps_y, reps_y * size(), j));
    }
}

/// The boundary between the two tiles of a square lies on a diagonal grid
/// line: for the square at column `x` and row `y`, on diagonal number
/// `x + y / PATTERN_SIZE_SQUARES`, with both end points of the boundary
/// between the end points of the line.
pub proof fn lemma_boundary_on_diagonal(reps_x: int, reps_y: int, x: int, y: int)
    requires
        valid_reps(reps_x, reps_y),
        valid_line_reps(reps_x, reps_y),
        0 <= x < reps_x * size(),
        0 <= y < reps_y * size(),
    ensures
        ({
            let (width, height) = (reps_x * size(), reps_y * size());
            let t = tiling_of(reps_x, reps_y);
            let k = (width - 1) + (height - 1) + x + y / size();
            let left = t.tiles[2 * (y * width + x)];
            let (a, b) = (t.lines[k][0], t.lines[k][1]);
            &&& k < t.lines.len()
            &&& forall|j: int|
                1 <= j <= 2 ==> (#[trigger] left[j].x - a.x) * (b.y - a.y) == (b.x - a.x) * (
                left[j].y - a.y) && a.y <= left[j].y <= b.y
        }),
{
    lemma_reps_bounds(reps_x, reps_y);
    let (width, height) = (reps_x * size(), reps_y * size());
    lemma_square_index(width, x, y);
    assert(y * width + x < width * height) by (nonlinear_arith)
        requires
            0 <= x < width,
            0 <= y < height,
    ;
    let t = tiling_of(reps_x, reps_y);
    let left = t.tiles[2 * (y * width + x)];
    assert(left == left_tile(x, y));
    let band = y / 5;
    let row = y % 5;
    assert(y == 5 * band + row && 0 <= row < 5 && 0 <= band < reps_y);
    let d = x + band;
    assert(0 <= d < width - 1 + reps_y);
    let k = (width - 1) + (height - 1) + d;
    assert(t.lines[k] == diagonal_line(reps_y, height, d));
    let (sx, sy) = (x * 5, y * 5);
    assert(0 <= sx && sx + 5 <= width * 5 && 0 <= sy && sy + 5 <= height * 5) by (nonlinear_arith)
        requires
            0 <= y < height,
            0 <= x < width,
            sx == x * 5,
            sy == y * 5,
    ;
    assert(0 <= (d + 1) * 5 <= (reps_x * 5 + reps_y) * 5 && -reps_y * 5 <= (d + 1 - reps_y) * 5)
        by (nonlinear_arith)
        requires
            0 <= d < reps_x * 5 - 1 + reps_y,
            reps_y >= 1,
    ;
    let (ax, bx, by) = ((d + 1) * 5, (d + 1 - reps_y) * 5, height * 5);
    let (p1x, p1y) = (sx + 5 - row, sy);
    let (p2x, p2y) = (sx + 4 - row, sy + 5);
    assert(left[1] == point(p1x, p1y) && left[2] == point(p2x, p2y));
    assert((p1x - ax) * (by - 0) == (bx - ax) * (p1y - 0) && (p2x - ax) * (by - 0) == (bx - ax) * (
    p2y - 0)) by (nonlinear_arith)
        requires
            y == 5 * band + row,
            d == x + band,
            height == reps_y * 5,
            sx == x * 5,
            sy == y * 5,
            p1x == sx + 5 - row,
            p1y == sy,
            p2x == sx + 4 - row,
            p2y == sy + 5,
            ax == (d + 1) * 5,
            bx == (d + 1 - reps_y) * 5,
            by == height * 5,
    ;
}

/// The number of grid lines of each format on offer: for the smallest, four
/// vertical, four horizontal and five diagonal ones.
pub proof fn lemma_format_line_count(format: TilingFormat)
    ensures
        format == TilingFormat::F5X5 ==> tiling_of(format.reps_x(), format.reps_y()).lines.len()
            == 4 + 4 + 5,
        format == TilingFormat::F10X10 ==> tiling_of(format.reps_x(), format.reps_y()).lines.len()
            == 9 + 9 + 11,
        format == TilingFormat::F10X15 ==> tiling_of(format.reps_x(), format.reps_y()).lines.len()
            == 9 + 14 + 12,
        format == TilingFormat::F15X15 ==> tiling_of(format.reps_x(), format.reps_y()).lines.len()
            == 14 + 14 + 17,
{
}

/// Loading a format twice gives the same tiles, lines and area.
pub proof fn lemma_load_deterministic(first: Tiling, second: Tiling, format: TilingFormat)
    requires
        first@ == tiling_of(format.reps_x(), format.reps_y()),
        second@ == tiling_of(format.reps_x(), format.reps_y()),
    ensures
        first@ == second@,
{
}

} // verus!
