//! The vector drawing of a painted pattern that is exported to a file: the
//! tiles of one format, repeated side by side, each filled with the theme's
//! colour for it, and nothing else.

use vstd::prelude::*;
use vstd::arithmetic::div_mod::lemma_fundamental_div_mod_converse;
use crate::decimal::{decimal_text, push_decimal};
use crate::lemmas::{lemma_format_tile_count, lemma_tiles_within_area};
use crate::painting::TileColor;
use crate::theme::ThemeData;
use crate::tiling::{path_text, size, tiling_of, Shape, Tiling, TilingFormat, Vertex};

verus! {

/// Most repetitions of a pattern in one drawing; it keeps every number of the
/// drawing far within the range of single-precision floats.
pub const MAX_REPETITIONS: usize = 1000;

/// Whether `c` may stand in a colour of an exported drawing: an ASCII letter
/// or digit, a space, or one of `(`, `)`, `,`, `.`, `%`.
pub open spec fn plain_char(c: char) -> bool {
    ||| ('a' <= c && c <= 'z')
    ||| ('A' <= c && c <= 'Z')
    ||| ('0' <= c && c <= '9')
    ||| c == ' '
    ||| c == '('
    ||| c == ')'
    ||| c == ','
    ||| c == '.'
    ||| c == '%'
}

/// A colour made of plain characters only: it can neither leave its attribute
/// nor refer to anything else in the drawing.
pub open spec fn plain_color(s: Seq<char>) -> bool {
    forall|i: int| 0 <= i < s.len() ==> plain_char(#[trigger] s[i])
}

/// Whether `s` is a `plain_color`.
pub fn is_plain_color(s: &str) -> (r: bool)
    ensures
        r == plain_color(s@),
{
    let n = s.unicode_len();
    let mut i: usize = 0;
    while i < n
        invariant
            n == s@.len(),
            i <= n,
            forall|j: int| 0 <= j < i ==> plain_char(#[trigger] s@[j]),
        decreases n - i,
    {
        let c = s.get_char(i);
        let plain = ('a' <= c && c <= 'z') || ('A' <= c && c <= 'Z') || ('0' <= c && c <= '9')
            || c == ' ' || c == '(' || c == ')' || c == ',' || c == '.' || c == '%';
        if !plain {
            return false;
        }
        i += 1;
    }
    true
}

/// The fill of a tile of colour `color`, unpainted tiles taking the background.
pub open spec fn fill_for(
    color: TileColor,
    background: Seq<char>,
    primary: Seq<char>,
    secondary: Seq<char>,
) -> Seq<char> {
    match color {
        TileColor::Primary => primary,
        TileColor::Secondary => secondary,
        TileColor::Empty => background,
    }
}

/// `points` moved `dx` steps to the right.
pub open spec fn shifted(points: Seq<Vertex>, dx: int) -> Seq<Vertex> {
    Seq::new(points.len(), |k: int| Vertex { x: (points[k].x + dx) as i64, y: points[k].y })
}

/// One tile of the drawing, filled and outlined in `fill`.
pub open spec fn polygon_text(points: Seq<Vertex>, dx: int, fill: Seq<char>) -> Seq<char> {
    "<polygon points=\""@ + path_text(shifted(points, dx)) + "\" fill=\""@ + fill
        + "\" stroke=\""@ + fill + "\" stroke-width=\"0.05\"/>"@
}

/// The first `k` polygons of a drawing of the tiles `tiles` in the colours
/// `colors`, repeated every `shift` steps: repetition by repetition, each in
/// the order of the tiles.
pub open spec fn body_text(
    tiles: Seq<Seq<Vertex>>,
    colors: Seq<TileColor>,
    background: Seq<char>,
    primary: Seq<char>,
    secondary: Seq<char>,
    shift: int,
    k: int,
) -> Seq<char>
    decreases k,
{
    if k <= 0 {
        seq![]
    } else {
        let (j, n) = (k - 1, tiles.len() as int);
        body_text(tiles, colors, background, primary, secondary, shift, k - 1) + polygon_text(
            tiles[j % n],
            (j / n) * shift,
            fill_for(colors[j % n], background, primary, secondary),
        )
    }
}

/// The exported drawing of format `format` repeated `reps` times across,
/// tile `i` painted `colors[i]`: a view box of the whole area in squares, a
/// height of 1000 pixels and a width of 1000 pixels for each whole time the
/// height goes into the width.
pub open spec fn document_of(
    format: TilingFormat,
    colors: Seq<TileColor>,
    background: Seq<char>,
    primary: Seq<char>,
    secondary: Seq<char>,
    reps: int,
) -> Seq<char> {
    let t = tiling_of(format.reps_x(), format.reps_y());
    let (vb_width, vb_height) = (t.width * reps, t.height);
    "<svg xmlns=\"http://www.w3.org/2000/svg\" viewBox=\"0 0 "@ + decimal_text(vb_width * 1000)
        + " "@ + decimal_text(vb_height * 1000) + "\" width=\""@ + decimal_text(
        (1000 * (vb_width / vb_height)) * 1000,
    ) + "\" height=\"1000\">"@ + body_text(
        t.tiles,
        colors,
        background,
        primary,
        secondary,
        t.width * size(),
        reps * t.tiles.len(),
    ) + "</svg>"@
}

/// What a drawing needs to be exported to any format.
pub open spec fn drawable(format: TilingFormat, colors: Seq<TileColor>, reps: int) -> bool {
    &&& colors.len() == tiling_of(format.reps_x(), format.reps_y()).tiles.len()
    &&& 1 <= reps <= MAX_REPETITIONS
}

/// Whether `svg` is the exported drawing of some format, with plain colours.
pub open spec fn is_export_document(svg: Seq<char>) -> bool {
    exists|
        format: TilingFormat,
        colors: Seq<TileColor>,
        background: Seq<char>,
        primary: Seq<char>,
        secondary: Seq<char>,
        reps: int,
    |
        {
            &&& drawable(format, colors, reps)
            &&& plain_color(background)
            &&& plain_color(primary)
            &&& plain_color(secondary)
            &&& #[trigger] document_of(format, colors, background, primary, secondary, reps) == svg
        }
}

fn shifted_shape(shape: &Shape, dx: i64) -> (r: Shape)
    requires
        forall|k: int|
            0 <= k < shape@.len() ==> 0 <= #[trigger] shape@[k].x && shape@[k].x + dx <= i64::MAX,
    ensures
        r@ == shifted(shape@, dx as int),
{
    let mut points: Vec<Vertex> = Vec::new();
    let mut k: usize = 0;
    while k < shape.0.len()
        invariant
            k <= shape@.len(),
            forall|j: int|
                0 <= j < shape@.len() ==> 0 <= #[trigger] shape@[j].x && shape@[j].x + dx <= i64::MAX,
            points@ == shifted(shape@, dx as int).take(k as int),
        decreases shape@.len() - k,
    {
        let v = shape.0[k];
        points.push(Vertex { x: v.x + dx, y: v.y });
        assert(points@ =~= shifted(shape@, dx as int).take(k + 1));
        k += 1;
    }
    assert(shifted(shape@, dx as int).take(shape@.len() as int) =~= shifted(shape@, dx as int));
    Shape(points)
}

fn push_polygon(s: &mut String, shape: &Shape, dx: i64, fill: &str)
    requires
        forall|k: int|
            0 <= k < shape@.len() ==> 0 <= #[trigger] shape@[k].x && shape@[k].x + dx <= i64::MAX,
    ensures
        final(s)@ == old(s)@ + polygon_text(shape@, dx as int, fill@),
{
    let moved = shifted_shape(shape, dx);
    s.append("<polygon points=\"");
    s.append(moved.svg_path().as_str());
    s.append("\" fill=\"");
    s.append(fill);
    s.append("\" stroke=\"");
    s.append(fill);
    s.append("\" stroke-width=\"0.05\"/>");
    assert(final(s)@ =~= old(s)@ + polygon_text(shape@, dx as int, fill@));
}

/// The exported drawing of `format` repeated `reps` times across, tile `i`
/// painted `colors[i]` in the colours of `theme`.
pub fn export_document(
    format: TilingFormat,
    colors: &Vec<TileColor>,
    theme: &ThemeData,
    reps: usize,
) -> (r: String)
    requires
        drawable(format, colors@, reps as int),
    ensures
        r@ == document_of(
            format,
            colors@,
            theme.background@,
            theme.primary@,
            theme.secondary@,
            reps as int,
        ),
{
    let tiling = Tiling::load(format);
    let shapes = tiling.iter_tiles();
    let ghost t = tiling_of(format.reps_x(), format.reps_y());
    let ghost (bg, pr, se) = (theme.background@, theme.primary@, theme.secondary@);
    let n = shapes.len();
    let width = tiling.viewport_width();
    let height = tiling.viewport_height();
    proof {
        lemma_format_tile_count(format);
    }
    assert(5 <= width <= 15 && 5 <= height <= 15 && 50 <= n <= 450);
    let shift: i64 = (width * 5) as i64;
    assert(width * reps <= 15 * 1000) by (nonlinear_arith)
        requires
            width <= 15,
            reps <= 1000,
    ;
    let vb_width: usize = width * reps;
    let mut s = String::from_str("<svg xmlns=\"http://www.w3.org/2000/svg\" viewBox=\"0 0 ");
    push_decimal(&mut s, vb_width as i128 * 1000);
    s.append(" ");
    push_decimal(&mut s, height as i128 * 1000);
    s.append("\" width=\"");
    let export_width: usize = vb_width / height;
    assert(export_width <= vb_width);
    push_decimal(&mut s, 1000 * (export_width as i128) * 1000);
    s.append("\" height=\"1000\">");
    let ghost head = s@;
    let mut r: usize = 0;
    while r < reps
        invariant
            t == tiling_of(format.reps_x(), format.reps_y()),
            shapes@.len() == n == t.tiles.len() == colors@.len(),
            forall|i: int| 0 <= i < n ==> #[trigger] shapes@[i]@ == t.tiles[i],
            5 <= width <= 15,
            n >= 1,
            shift == width * size(),
            t.width == width,
            reps <= MAX_REPETITIONS,
            r <= reps,
            bg == theme.background@,
            pr == theme.primary@,
            se == theme.secondary@,
            s@ == head + body_text(t.tiles, colors@, bg, pr, se, shift as int, r * n),
        decreases reps - r,
    {
        let mut i: usize = 0;
        while i < n
            invariant
                t == tiling_of(format.reps_x(), format.reps_y()),
                shapes@.len() == n == t.tiles.len() == colors@.len(),
                forall|i: int| 0 <= i < n ==> #[trigger] shapes@[i]@ == t.tiles[i],
                5 <= width <= 15,
                n >= 1,
                shift == width * size(),
                t.width == width,
                reps <= MAX_REPETITIONS,
                r < reps,
                i <= n,
                bg == theme.background@,
                pr == theme.primary@,
                se == theme.secondary@,
                s@ == head + body_text(t.tiles, colors@, bg, pr, se, shift as int, r * n + i),
            decreases n - i,
        {
            assert(r * shift <= 1000 * 75) by (nonlinear_arith)
                requires
                    r < 1000,
                    0 <= shift <= 75,
            ;
            let dx: i64 = r as i64 * shift;
            proof {
                assert forall|k: int| 0 <= k < shapes@[i as int]@.len() implies 0
                    <= #[trigger] shapes@[i as int]@[k].x && shapes@[i as int]@[k].x + dx
                    <= i64::MAX by {
                    lemma_tiles_within_area(format.reps_x(), format.reps_y(), i as int, k);
                }
                let j = r * n + i;
                lemma_fundamental_div_mod_converse(j, n as int, r as int, i as int);
                assert(r * n + i + 1 == j + 1);
            }
            let fill = theme.fill(colors[i]);
            push_polygon(&mut s, &shapes[i], dx, fill.as_str());
            i += 1;
        }
        assert((r + 1) * n == r * n + n) by (nonlinear_arith);
        r += 1;
    }
    s.append("</svg>");
    s
}

} // verus!
