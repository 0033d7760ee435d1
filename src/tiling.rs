//! Generation of the tiles and grid lines of a herringbone pattern.
//!
//! The pattern is a grid of unit squares. Each square is cut in a left and a
//! right tile by a boundary whose slope depends on the square's row within a
//! band of `PATTERN_SIZE_SQUARES` rows, so that the boundaries of the rows of a
//! band join into one diagonal line. All corners lie on multiples of
//! `1 / PATTERN_SIZE_SQUARES`, and coordinates are held as such multiples
//! ("steps"), which keeps every corner exact.

use vstd::prelude::*;
use vstd::arithmetic::div_mod::*;
use vstd::arithmetic::mul::*;
use crate::decimal::{decimal_text, push_decimal};

verus! {

/// Number of rows after which the slope cycle of the boundaries repeats; also
/// the number of steps in the side of a square.
pub const PATTERN_SIZE_SQUARES: usize = 5;

/// `PATTERN_SIZE_SQUARES` in proofs, with its value visible to every module.
#[verifier::inline]
pub open spec fn size() -> int {
    5
}

/// A point of the pattern, each coordinate counted in steps of
/// `1 / PATTERN_SIZE_SQUARES` square.
#[derive(Debug, Default, Clone, Copy, PartialEq, Eq, Structural)]
pub struct Vertex {
    pub x: i64,
    pub y: i64,
}

impl Vertex {
    pub fn new(x: i64, y: i64) -> (r: Self)
        ensures
            r.x == x,
            r.y == y,
    {
        Self { x, y }
    }
}

/// Text of a coordinate of `n` steps, to three decimals.
pub open spec fn coordinate_text(n: int) -> Seq<char> {
    decimal_text(n * (1000int / size()))
}

/// Text of a point in a list of points of a vector drawing: `x,y`.
pub open spec fn point_text(v: Vertex) -> Seq<char> {
    coordinate_text(v.x as int) + seq![','] + coordinate_text(v.y as int)
}

/// Text of a list of points, separated by single spaces.
pub open spec fn path_text(points: Seq<Vertex>) -> Seq<char>
    decreases points.len(),
{
    if points.len() == 0 {
        seq![]
    } else if points.len() == 1 {
        point_text(points[0])
    } else {
        path_text(points.drop_last()) + seq![' '] + point_text(points.last())
    }
}

fn push_coordinate(s: &mut String, n: i64)
    ensures
        final(s)@ == old(s)@ + coordinate_text(n as int),
{
    let per_step: i128 = 1000 / (PATTERN_SIZE_SQUARES as i128);
    assert(-200 * 0x8000_0000_0000_0000 <= n * 200 <= 200 * 0x8000_0000_0000_0000)
        by (nonlinear_arith)
        requires
            -0x8000_0000_0000_0000 <= n <= 0x8000_0000_0000_0000,
    ;
    push_decimal(s, n as i128 * per_step);
}

/// Text of a coordinate of `steps` steps, in squares, as the attributes of a
/// vector drawing hold it.
pub fn svg_coordinate(steps: i64) -> (r: String)
    ensures
        r@ == coordinate_text(steps as int),
{
    let mut s = String::new();
    push_coordinate(&mut s, steps);
    s
}

impl Vertex {
    /// The point as it stands in a list of points of a vector drawing.
    pub fn svg_point(&self) -> (r: String)
        ensures
            r@ == point_text(*self),
    {
        proof {
            reveal_strlit(",");
        }
        let mut s = String::new();
        push_coordinate(&mut s, self.x);
        s.append(",");
        push_coordinate(&mut s, self.y);
        assert(s@ =~= point_text(*self));
        s
    }
}

/// A polygon given by its corners.
#[derive(Debug, Clone)]
pub struct Shape(pub Vec<Vertex>);

impl View for Shape {
    type V = Seq<Vertex>;

    open spec fn view(&self) -> Seq<Vertex> {
        self.0@
    }
}

impl Shape {
    /// The corners as the `points` of a vector drawing's polygon.
    pub fn svg_path(&self) -> (r: String)
        ensures
            r@ == path_text(self@),
    {
        let mut path = String::new();
        let mut i: usize = 0;
        while i < self.0.len()
            invariant
                i <= self@.len(),
                path@ == path_text(self@.take(i as int)),
            decreases self@.len() - i,
        {
            proof {
                reveal_strlit(" ");
            }
            if i > 0 {
                path.append(" ");
            }
            let point = self.0[i].svg_point();
            path.append(point.as_str());
            let ghost next = self@.take(i + 1);
            assert(next.drop_last() =~= self@.take(i as int));
            assert(next.last() == self@[i as int]);
            if i == 0 {
                assert(path@ =~= path_text(next));
            } else {
                assert(path@ =~= path_text(next.drop_last()) + seq![' '] + point_text(next.last()));
            }
            i += 1;
        }
        assert(self@.take(self@.len() as int) =~= self@);
        path
    }
}

/// A tile: a quadrilateral whose corners are in drawing order.
pub type Tile = [Vertex; 4];

/// A straight grid line from its first to its second point.
pub type Line = [Vertex; 2];

/// The point at `(x, y)` steps.
pub open spec fn point(x: int, y: int) -> Vertex {
    Vertex { x: x as i64, y: y as i64 }
}

/// Where the boundary of a square in row `y` meets the square's top side, in
/// steps from its left side.
pub open spec fn offset_top(y: int) -> int {
    size() - y % size()
}

/// Where the boundary of a square in row `y` meets the square's bottom side, in
/// steps from its left side.
pub open spec fn offset_bottom(y: int) -> int {
    size() - (y % size() + 1)
}

/// The left tile of the square at column `x` and row `y`.
pub open spec fn left_tile(x: int, y: int) -> Seq<Vertex> {
    let (sx, sy) = (x * size(), y * size());
    seq![
        point(sx, sy),
        point(sx + offset_top(y), sy),
        point(sx + offset_bottom(y), sy + size()),
        point(sx, sy + size()),
    ]
}

/// The right tile of the square at column `x` and row `y`.
pub open spec fn right_tile(x: int, y: int) -> Seq<Vertex> {
    let (sx, sy) = (x * size(), y * size());
    seq![
        point(sx + offset_top(y), sy),
        point(sx + size(), sy),
        point(sx + size(), sy + size()),
        point(sx + offset_bottom(y), sy + size()),
    ]
}

/// Number of tiles of a pattern repeated `reps_x` times across and `reps_y`
/// times down: two for each square.
#[verifier::inline]
pub open spec fn tile_count(reps_x: int, reps_y: int) -> int {
    2 * (reps_x * size()) * (reps_y * size())
}

/// Tile `i` of a pattern `width` squares wide: squares in rows from the top,
/// each row from the left, the left tile of a square before its right one.
pub open spec fn tile_at(width: int, i: int) -> Seq<Vertex> {
    let square = i / 2;
    if i % 2 == 0 {
        left_tile(square % width, square / width)
    } else {
        right_tile(square % width, square / width)
    }
}

/// All tiles of a pattern repeated `reps_x` times across and `reps_y` times down.
pub open spec fn tiles_of(reps_x: int, reps_y: int) -> Seq<Seq<Vertex>> {
    Seq::new(tile_count(reps_x, reps_y) as nat, |i: int| tile_at(reps_x * size(), i))
}

/// Repetition counts whose tiles can be counted in a `usize`.
pub open spec fn valid_reps(reps_x: int, reps_y: int) -> bool {
    &&& 1 <= reps_x
    &&& 1 <= reps_y
    &&& tile_count(reps_x, reps_y) <= usize::MAX
}

/// Bounds that follow from valid repetition counts: the sizes fit a `usize`
/// and every coordinate in steps fits an `i64`.
pub proof fn lemma_reps_bounds(reps_x: int, reps_y: int)
    requires
        valid_reps(reps_x, reps_y),
    ensures
        reps_x * size() <= usize::MAX,
        reps_y * size() <= usize::MAX,
        reps_x * size() * size() <= i64::MAX,
        reps_y * size() * size() <= i64::MAX,
        (reps_x * size()) * (reps_y * size()) * 2 == tile_count(reps_x, reps_y),
        (reps_x * size() + reps_y * size()) * 2 <= usize::MAX,
{
    let (a, b) = (reps_x, reps_y);
    assert(usize::MAX <= u64::MAX);
    assert(a * 5 * 5 * 2 <= 2 * (a * 5) * (b * 5) && b * 5 * 5 * 2 <= 2 * (a * 5) * (b * 5)
        && (a * 5 + b * 5) * 2 <= 2 * (a * 5) * (b * 5)
        && (a * 5) * (b * 5) * 2 == 2 * (a * 5) * (b * 5)) by (nonlinear_arith)
        requires
            a >= 1,
            b >= 1,
    ;
}

/// Tile indices of the square at column `x` and row `y`: its left tile comes at
/// `2 * (y * width + x)`, its right tile right after it.
pub proof fn lemma_square_index(width: int, x: int, y: int)
    requires
        0 <= x < width,
        0 <= y,
    ensures
        tile_at(width, 2 * (y * width + x)) == left_tile(x, y),
        tile_at(width, 2 * (y * width + x) + 1) == right_tile(x, y),
{
    let sq = y * width + x;
    lemma_fundamental_div_mod_converse(sq, width, y, x);
    assert((2 * sq) / 2 == sq && (2 * sq) % 2 == 0);
    assert((2 * sq + 1) / 2 == sq && (2 * sq + 1) % 2 == 1);
}

/// The tiles of a pattern repeated `reps_x` times across and `reps_y` times
/// down, squares in rows from the top, each row from the left, and the left
/// tile of each square before its right one.
pub fn generate_tiles(reps_x: usize, reps_y: usize) -> (r: Vec<Tile>)
    requires
        valid_reps(reps_x as int, reps_y as int),
    ensures
        r@.len() == tile_count(reps_x as int, reps_y as int),
        r@.map_values(|t: Tile| t@) == tiles_of(reps_x as int, reps_y as int),
{
    proof {
        lemma_reps_bounds(reps_x as int, reps_y as int);
    }
    let width: usize = reps_x * PATTERN_SIZE_SQUARES;
    let height: usize = reps_y * PATTERN_SIZE_SQUARES;
    let step: i64 = PATTERN_SIZE_SQUARES as i64;
    let ghost count = tile_count(reps_x as int, reps_y as int);
    let mut tiles: Vec<Tile> = Vec::new();
    let mut y: usize = 0;
    while y < height
        invariant
            width == reps_x * size(),
            height == reps_y * size(),
            step == size(),
            width * size() <= i64::MAX,
            height * size() <= i64::MAX,
            count == width * height * 2,
            y <= height,
            tiles@.len() == 2 * (y * width),
            forall|j: int| 0 <= j < tiles@.len() ==> #[trigger] tiles@[j]@ == tile_at(width as int, j),
        decreases height - y,
    {
        let mut x: usize = 0;
        while x < width
            invariant
                width == reps_x * size(),
                height == reps_y * size(),
                step == size(),
                width * size() <= i64::MAX,
                height * size() <= i64::MAX,
                y < height,
                x <= width,
                tiles@.len() == 2 * (y * width + x),
                forall|j: int| 0 <= j < tiles@.len() ==> #[trigger] tiles@[j]@ == tile_at(width as int, j),
            decreases width - x,
        {
            proof {
                lemma_mul_inequality(x as int + 1, width as int, size());
                lemma_mul_inequality(y as int + 1, height as int, size());
                lemma_square_index(width as int, x as int, y as int);
            }
            let sx: i64 = x as i64 * step;
            let sy: i64 = y as i64 * step;
            let offset_i: i64 = (y % PATTERN_SIZE_SQUARES) as i64;
            let offset_top: i64 = step - offset_i;
            let offset_bottom: i64 = step - (offset_i + 1);
            let left: Tile = [
                Vertex::new(sx, sy),
                Vertex::new(sx + offset_top, sy),
                Vertex::new(sx + offset_bottom, sy + step),
                Vertex::new(sx, sy + step),
            ];
            let right: Tile = [
                Vertex::new(sx + offset_top, sy),
                Vertex::new(sx + step, sy),
                Vertex::new(sx + step, sy + step),
                Vertex::new(sx + offset_bottom, sy + step),
            ];
            assert(left@ =~= left_tile(x as int, y as int));
            assert(right@ =~= right_tile(x as int, y as int));
            tiles.push(left);
            tiles.push(right);
            x += 1;
        }
        proof {
            lemma_mul_is_distributive_add_other_way(width as int, y as int, 1);
        }
        y += 1;
    }
    proof {
        lemma_mul_is_commutative(height as int, width as int);
    }
    assert(tiles@.map_values(|t: Tile| t@) =~= tiles_of(reps_x as int, reps_y as int));
    tiles
}

/// Number of tiles of a pattern repeated `reps_x` times across and `reps_y`
/// times down.
pub fn num_tiles(reps_x: usize, reps_y: usize) -> (r: usize)
    requires
        tile_count(reps_x as int, reps_y as int) <= usize::MAX,
    ensures
        r == tile_count(reps_x as int, reps_y as int),
{
    if reps_x == 0 || reps_y == 0 {
        assert(tile_count(reps_x as int, reps_y as int) == 0) by (nonlinear_arith)
            requires
                reps_x == 0 || reps_y == 0,
        ;
        return 0;
    }
    proof {
        lemma_reps_bounds(reps_x as int, reps_y as int);
    }
    let width: usize = reps_x * PATTERN_SIZE_SQUARES;
    let height: usize = reps_y * PATTERN_SIZE_SQUARES;
    width * height * 2
}

/// The line between columns `k` and `k + 1` of squares, from top to bottom.
pub open spec fn vertical_line(height: int, k: int) -> Seq<Vertex> {
    seq![point((k + 1) * size(), 0), point((k + 1) * size(), height * size())]
}

/// The line between rows `k` and `k + 1` of squares, from left to right.
pub open spec fn horizontal_line(width: int, k: int) -> Seq<Vertex> {
    seq![point(0, (k + 1) * size()), point(width * size(), (k + 1) * size())]
}

/// The `k`-th diagonal, which starts on the top edge after `k + 1` squares and
/// moves one square to the left for every band of `PATTERN_SIZE_SQUARES` rows,
/// so `reps_y` squares over the full height.
pub open spec fn diagonal_line(reps_y: int, height: int, k: int) -> Seq<Vertex> {
    seq![point((k + 1) * size(), 0), point((k + 1 - reps_y) * size(), height * size())]
}

/// Numbers of vertical, horizontal and diagonal lines.
#[verifier::inline]
pub open spec fn vertical_count(reps_x: int) -> int {
    reps_x * size() - 1
}

#[verifier::inline]
pub open spec fn horizontal_count(reps_y: int) -> int {
    reps_y * size() - 1
}

#[verifier::inline]
pub open spec fn diagonal_count(reps_x: int, reps_y: int) -> int {
    vertical_count(reps_x) + reps_y
}

#[verifier::inline]
pub open spec fn line_count(reps_x: int, reps_y: int) -> int {
    vertical_count(reps_x) + horizontal_count(reps_y) + diagonal_count(reps_x, reps_y)
}

/// The grid lines of a pattern repeated `reps_x` times across and `reps_y`
/// times down: the vertical lines from the left, then the horizontal lines from
/// the top, then the diagonals from the left. None runs along the outer border.
pub open spec fn lines_of(reps_x: int, reps_y: int) -> Seq<Seq<Vertex>> {
    let (width, height) = (reps_x * size(), reps_y * size());
    Seq::new(vertical_count(reps_x) as nat, |k: int| vertical_line(height, k))
        + Seq::new(horizontal_count(reps_y) as nat, |k: int| horizontal_line(width, k))
        + Seq::new(
        diagonal_count(reps_x, reps_y) as nat,
        |k: int| diagonal_line(reps_y, height, k),
    )
}

/// Repetition counts whose grid lines can be counted in a `usize` and have
/// coordinates within `i64`.
pub open spec fn valid_line_reps(reps_x: int, reps_y: int) -> bool {
    &&& 1 <= reps_x
    &&& 1 <= reps_y
    &&& (reps_x * size() + reps_y * size()) * 2 <= usize::MAX
    &&& (reps_x * size() + reps_y * size()) * size() <= i64::MAX
}

/// Number of grid lines of a pattern repeated `reps_x` times across and
/// `reps_y` times down.
pub fn num_lines(reps_x: usize, reps_y: usize) -> (r: usize)
    requires
        1 <= reps_x,
        1 <= reps_y,
        line_count(reps_x as int, reps_y as int) <= usize::MAX,
    ensures
        r == line_count(reps_x as int, reps_y as int),
{
    let vertical: usize = reps_x * PATTERN_SIZE_SQUARES - 1;
    let horizontal: usize = reps_y * PATTERN_SIZE_SQUARES - 1;
    let diagonal: usize = vertical + reps_y;
    vertical + horizontal + diagonal
}

/// The grid lines of a pattern repeated `reps_x` times across and `reps_y`
/// times down, in the order of `lines_of`.
pub fn generate_lines(reps_x: usize, reps_y: usize) -> (r: Vec<Line>)
    requires
        valid_line_reps(reps_x as int, reps_y as int),
    ensures
        r@.len() == line_count(reps_x as int, reps_y as int),
        r@.map_values(|l: Line| l@) == lines_of(reps_x as int, reps_y as int),
{
    let width: usize = reps_x * PATTERN_SIZE_SQUARES;
    let height: usize = reps_y * PATTERN_SIZE_SQUARES;
    let num_vertical: usize = width - 1;
    let num_horizontal: usize = height - 1;
    let num_diagonal: usize = num_vertical + reps_y;
    let step: i64 = PATTERN_SIZE_SQUARES as i64;
    let bottom: i64 = height as i64 * step;
    let right: i64 = width as i64 * step;
    let ghost verticals = Seq::new(
        num_vertical as nat,
        |k: int| vertical_line(height as int, k),
    );
    let ghost horizontals = Seq::new(
        num_horizontal as nat,
        |k: int| horizontal_line(width as int, k),
    );
    let ghost diagonals = Seq::new(
        num_diagonal as nat,
        |k: int| diagonal_line(reps_y as int, height as int, k),
    );
    let mut lines: Vec<Line> = Vec::new();

    let mut x: usize = 1;
    while x <= num_vertical
        invariant
            1 <= x <= num_vertical + 1,
            num_vertical + 1 == width,
            (width + reps_y) * size() <= i64::MAX,
            step == size(),
            bottom == height * size(),
            lines@.len() == x - 1,
            verticals == Seq::new(num_vertical as nat, |k: int| vertical_line(height as int, k)),
            forall|j: int| 0 <= j < lines@.len() ==> #[trigger] lines@[j]@ == verticals[j],
        decreases num_vertical + 1 - x,
    {
        proof {
            lemma_mul_inequality(x as int, (width + reps_y) as int, size());
        }
        let sx: i64 = x as i64 * step;
        let line: Line = [Vertex::new(sx, 0), Vertex::new(sx, bottom)];
        assert(line@ =~= vertical_line(height as int, x - 1));
        lines.push(line);
        x += 1;
    }

    let mut y: usize = 1;
    while y <= num_horizontal
        invariant
            1 <= y <= num_horizontal + 1,
            num_horizontal + 1 == height,
            num_vertical + 1 == width,
            height * size() <= i64::MAX,
            step == size(),
            right == width * size(),
            lines@.len() == num_vertical + y - 1,
            verticals.len() == num_vertical,
            horizontals == Seq::new(
                num_horizontal as nat,
                |k: int| horizontal_line(width as int, k),
            ),
            forall|j: int| 0 <= j < lines@.len() ==> #[trigger] lines@[j]@ == (verticals + horizontals)[j],
        decreases num_horizontal + 1 - y,
    {
        proof {
            lemma_mul_inequality(y as int, height as int, size());
        }
        let sy: i64 = y as i64 * step;
        let line: Line = [Vertex::new(0, sy), Vertex::new(right, sy)];
        assert(line@ =~= horizontal_line(width as int, y - 1));
        lines.push(line);
        y += 1;
    }

    let mut top_x: usize = 1;
    while top_x <= num_diagonal
        invariant
            1 <= top_x <= num_diagonal + 1,
            num_diagonal + 1 == width + reps_y,
            num_vertical + 1 == width,
            num_horizontal + 1 == height,
            1 <= reps_y,
            (width + reps_y) * size() <= i64::MAX,
            step == size(),
            bottom == height * size(),
            lines@.len() == num_vertical + num_horizontal + top_x - 1,
            verticals.len() == num_vertical,
            horizontals.len() == num_horizontal,
            diagonals == Seq::new(
                num_diagonal as nat,
                |k: int| diagonal_line(reps_y as int, height as int, k),
            ),
            width + reps_y < usize::MAX,
            forall|j: int| 0 <= j < lines@.len() ==> #[trigger] lines@[j]@ == (verticals + horizontals + diagonals)[j],
        decreases num_diagonal + 1 - top_x,
    {
        proof {
            lemma_mul_inequality(top_x as int, (width + reps_y) as int, size());
            lemma_mul_inequality(reps_y as int, (width + reps_y) as int, size());
        }
        let sx: i64 = top_x as i64 * step;
        let bottom_x: i64 = (top_x as i64 - reps_y as i64) * step;
        let line: Line = [Vertex::new(sx, 0), Vertex::new(bottom_x, bottom)];
        assert(line@ =~= diagonal_line(reps_y as int, height as int, top_x - 1));
        lines.push(line);
        top_x += 1;
    }
    assert(lines@.map_values(|l: Line| l@) =~= lines_of(reps_x as int, reps_y as int));
    lines
}

/// The patterns on offer, named by their size in squares.
#[derive(Debug, Clone, Copy, PartialEq, Eq, Structural)]
pub enum TilingFormat {
    F5X5,
    F10X10,
    F10X15,
    F15X15,
}

impl TilingFormat {
    /// How often the base pattern repeats across.
    pub open spec fn reps_x(self) -> int {
        match self {
            TilingFormat::F5X5 => 1,
            TilingFormat::F10X10 => 2,
            TilingFormat::F10X15 => 2,
            TilingFormat::F15X15 => 3,
        }
    }

    /// How often the base pattern repeats down.
    pub open spec fn reps_y(self) -> int {
        match self {
            TilingFormat::F5X5 => 1,
            TilingFormat::F10X10 => 2,
            TilingFormat::F10X15 => 3,
            TilingFormat::F15X15 => 3,
        }
    }

    /// The format at position `index` in the list above.
    pub fn from_index(index: u8) -> (r: Option<TilingFormat>)
        ensures
            index == 0 <==> r == Some(TilingFormat::F5X5),
            index == 1 <==> r == Some(TilingFormat::F10X10),
            index == 2 <==> r == Some(TilingFormat::F10X15),
            index == 3 <==> r == Some(TilingFormat::F15X15),
            index > 3 <==> r is None,
    {
        match index {
            0 => Some(TilingFormat::F5X5),
            1 => Some(TilingFormat::F10X10),
            2 => Some(TilingFormat::F10X15),
            3 => Some(TilingFormat::F15X15),
            _ => None,
        }
    }
}

/// What a tiling holds: its tiles, its grid lines and the size of the area
/// they cover, in squares.
pub struct TilingView {
    pub tiles: Seq<Seq<Vertex>>,
    pub lines: Seq<Seq<Vertex>>,
    pub width: int,
    pub height: int,
}

/// The tiling of a pattern repeated `reps_x` times across and `reps_y` times down.
pub open spec fn tiling_of(reps_x: int, reps_y: int) -> TilingView {
    TilingView {
        tiles: tiles_of(reps_x, reps_y),
        lines: lines_of(reps_x, reps_y),
        width: reps_x * size(),
        height: reps_y * size(),
    }
}

/// The tiles and grid lines of one format, and the area they cover.
#[derive(Debug)]
pub struct Tiling {
    tiles: Vec<Tile>,
    lines: Vec<Line>,
    viewport_width: usize,
    viewport_height: usize,
}

impl View for Tiling {
    type V = TilingView;

    closed spec fn view(&self) -> TilingView {
        TilingView {
            tiles: self.tiles@.map_values(|t: Tile| t@),
            lines: self.lines@.map_values(|l: Line| l@),
            width: self.viewport_width as int,
            height: self.viewport_height as int,
        }
    }
}

/// Two tilings count as equal when they have as many tiles, which tells the
/// formats of different sizes apart.
impl PartialEq for Tiling {
    fn eq(&self, other: &Self) -> (r: bool)
        ensures
            r == (self@.tiles.len() == other@.tiles.len()),
    {
        self.tiles.len() == other.tiles.len()
    }
}

impl vstd::std_specs::cmp::PartialEqSpecImpl for Tiling {
    open spec fn obeys_eq_spec() -> bool {
        true
    }

    open spec fn eq_spec(&self, other: &Tiling) -> bool {
        self@.tiles.len() == other@.tiles.len()
    }
}

impl Tiling {
    fn new(tiles: Vec<Tile>, lines: Vec<Line>, viewport_width: usize, viewport_height: usize) -> (r: Self)
        ensures
            r.tiles == tiles,
            r.lines == lines,
            r.viewport_width == viewport_width,
            r.viewport_height == viewport_height,
    {
        Tiling { tiles, lines, viewport_width, viewport_height }
    }

    fn generate(reps_x: usize, reps_y: usize) -> (r: Self)
        requires
            1 <= reps_x <= 3,
            1 <= reps_y <= 3,
        ensures
            r@ == tiling_of(reps_x as int, reps_y as int),
    {
        assert(tile_count(reps_x as int, reps_y as int) <= 450) by (nonlinear_arith)
            requires
                1 <= reps_x <= 3,
                1 <= reps_y <= 3,
                tile_count(reps_x as int, reps_y as int) == 2 * (reps_x * 5) * (reps_y * 5),
        ;
        let tiles = generate_tiles(reps_x, reps_y);
        let lines = generate_lines(reps_x, reps_y);
        let r = Self::new(
            tiles,
            lines,
            reps_x * PATTERN_SIZE_SQUARES,
            reps_y * PATTERN_SIZE_SQUARES,
        );
        assert(r@ == tiling_of(reps_x as int, reps_y as int));
        r
    }

    /// The tiling of `format`.
    pub fn load(format: TilingFormat) -> (r: Self)
        ensures
            r@ == tiling_of(format.reps_x(), format.reps_y()),
    {
        match format {
            TilingFormat::F5X5 => Self::generate(1, 1),
            TilingFormat::F10X10 => Self::generate(2, 2),
            TilingFormat::F10X15 => Self::generate(2, 3),
            TilingFormat::F15X15 => Self::generate(3, 3),
        }
    }

    /// Width of the covered area, in squares.
    pub fn viewport_width(&self) -> (r: usize)
        ensures
            r == self@.width,
    {
        self.viewport_width
    }

    /// Height of the covered area, in squares.
    pub fn viewport_height(&self) -> (r: usize)
        ensures
            r == self@.height,
    {
        self.viewport_height
    }

    /// The tiles as polygons, in the order of their indices.
    pub fn iter_tiles(&self) -> (r: Vec<Shape>)
        ensures
            r@.len() == self@.tiles.len(),
            forall|i: int| 0 <= i < r@.len() ==> #[trigger] r@[i]@ == self@.tiles[i],
    {
        let mut shapes: Vec<Shape> = Vec::new();
        let mut i: usize = 0;
        while i < self.tiles.len()
            invariant
                i <= self.tiles@.len(),
                shapes@.len() == i,
                forall|j: int| 0 <= j < i ==> #[trigger] shapes@[j]@ == self.tiles@[j]@,
            decreases self.tiles@.len() - i,
        {
            let tile: Tile = self.tiles[i];
            let mut points: Vec<Vertex> = Vec::new();
            points.push(tile[0]);
            points.push(tile[1]);
            points.push(tile[2]);
            points.push(tile[3]);
            assert(points@ =~= tile@);
            shapes.push(Shape(points));
            i += 1;
        }
        shapes
    }

    /// Number of tiles.
    pub fn num_tiles(&self) -> (r: usize)
        ensures
            r == self@.tiles.len(),
    {
        self.tiles.len()
    }

    /// The grid lines, in their order.
    pub fn iter_lines(&self) -> (r: Vec<Line>)
        ensures
            r@.map_values(|l: Line| l@) == self@.lines,
    {
        let mut lines: Vec<Line> = Vec::new();
        let mut i: usize = 0;
        while i < self.lines.len()
            invariant
                i <= self.lines@.len(),
                lines@ == self.lines@.take(i as int),
            decreases self.lines@.len() - i,
        {
            lines.push(self.lines[i]);
            assert(lines@ =~= self.lines@.take(i + 1));
            i += 1;
        }
        assert(self.lines@.take(self.lines@.len() as int) =~= self.lines@);
        lines
    }
}

} // verus!
