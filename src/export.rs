//! The file formats a pattern can be exported to, and the conversion of its
//! vector drawing into each of them.

use vstd::prelude::*;
use vstd::utf8::encode_utf8;
use crate::drawing::{document_of, drawable, export_document, is_export_document, plain_color};
use crate::fields::{field_bounds, fields};
use crate::painting::TileColor;
use crate::theme::ThemeData;
use crate::tiling::TilingFormat;

verus! {

/// The file formats on offer.
#[derive(Debug, Clone, Copy, PartialEq, Eq, Structural)]
pub enum OutputFormat {
    Svg,
    Ai,
    Pdf,
}

/// The file name extension of a format, without its dot.
pub open spec fn extension_of(format: OutputFormat) -> Seq<char> {
    match format {
        OutputFormat::Svg => "svg"@,
        OutputFormat::Pdf => "pdf"@,
        OutputFormat::Ai => "ai"@,
    }
}

/// The PDF document that svg2pdf makes of an exported drawing, or `None`
/// where it cannot read it.
pub uninterp spec fn pdf_of(svg: Seq<char>) -> Option<Seq<u8>>;

/// Relies on `svg2pdf::convert_str` with default options, which parses the
/// SVG text and writes it as a one-page PDF document, loading no fonts, or
/// returns the parse error, here as its message. It reads files and decodes
/// raster data for `image` and `feImage` elements, and unwraps results that
/// fail on broken image data or on bounding boxes that overflow under a
/// transform. An exported drawing holds none of these: only polygons with
/// short decimal coordinates, plain colours, no group, no transform and no
/// image. On such text the call returns, and what it returns depends on the
/// text alone.
#[verifier::external_body]
fn svg_to_pdf(svg: &str) -> (r: Result<Vec<u8>, String>)
    requires
        is_export_document(svg@),
    ensures
        match r {
            Ok(bytes) => pdf_of(svg@) == Some(bytes@),
            Err(_) => pdf_of(svg@) is None,
        },
{
    svg2pdf::convert_str(svg, svg2pdf::Options::default()).map_err(|e| e.to_string())
}

impl OutputFormat {
    pub fn extension(&self) -> (r: &'static str)
        ensures
            r@ == extension_of(*self),
    {
        match self {
            OutputFormat::Svg => "svg",
            OutputFormat::Pdf => "pdf",
            OutputFormat::Ai => "ai",
        }
    }

    /// The label of the format in a list of formats: its extension with the dot.
    pub fn to_string(&self) -> (r: String)
        ensures
            r@ == seq!['.'] + extension_of(*self),
    {
        proof {
            reveal_strlit(".");
        }
        let mut s = String::from_str(".");
        s.append(self.extension());
        s
    }

    /// The name of the file that holds a pattern exported as `stem`.
    pub fn file_name(&self, stem: &str) -> (r: String)
        ensures
            r@ == stem@ + seq!['.'] + extension_of(*self),
    {
        proof {
            reveal_strlit(".");
        }
        let mut s = String::from_str(stem);
        s.append(".");
        s.append(self.extension());
        s
    }

    /// The format at position `index` in the list above.
    pub fn from_index(index: u8) -> (r: Option<OutputFormat>)
        ensures
            index == 0 <==> r == Some(OutputFormat::Svg),
            index == 1 <==> r == Some(OutputFormat::Ai),
            index == 2 <==> r == Some(OutputFormat::Pdf),
            index > 2 <==> r is None,
    {
        match index {
            0 => Some(OutputFormat::Svg),
            1 => Some(OutputFormat::Ai),
            2 => Some(OutputFormat::Pdf),
            _ => None,
        }
    }
}

/// The content of the file that holds the SVG drawing `svg_content` in
/// `format`: the drawing's own UTF-8 bytes for SVG; for the print formats a
/// PDF document, or the message of the error met reading the drawing. Only
/// drawings built by `export_document` with plain colours go to the print
/// formats: svg2pdf may read files or panic on others.
pub fn convert_from_svg(svg_content: &str, format: OutputFormat) -> (r: Result<Vec<u8>, String>)
    requires
        format != OutputFormat::Svg ==> is_export_document(svg_content@),
    ensures
        format == OutputFormat::Svg ==> r is Ok && r->Ok_0@ == encode_utf8(svg_content@),
        format != OutputFormat::Svg ==> match r {
            Ok(bytes) => pdf_of(svg_content@) == Some(bytes@),
            Err(_) => pdf_of(svg_content@) is None,
        },
{
    match format {
        OutputFormat::Svg => Ok(svg_content.as_bytes_vec()),
        OutputFormat::Pdf | OutputFormat::Ai => svg_to_pdf(svg_content),
    }
}

/// The content of the file that exports `format` repeated `reps` times
/// across, tile `i` painted `colors[i]` in the colours of `theme`, as
/// `output`.
pub fn export_file(
    format: TilingFormat,
    colors: &Vec<TileColor>,
    theme: &ThemeData,
    reps: usize,
    output: OutputFormat,
) -> (r: Result<Vec<u8>, String>)
    requires
        drawable(format, colors@, reps as int),
        output != OutputFormat::Svg ==> plain_color(theme.background@) && plain_color(
            theme.primary@,
        ) && plain_color(theme.secondary@),
    ensures
        ({
            let svg = document_of(
                format,
                colors@,
                theme.background@,
                theme.primary@,
                theme.secondary@,
                reps as int,
            );
            &&& output == OutputFormat::Svg ==> r is Ok && r->Ok_0@ == encode_utf8(svg)
            &&& output != OutputFormat::Svg ==> match r {
                Ok(bytes) => pdf_of(svg) == Some(bytes@),
                Err(_) => pdf_of(svg) is None,
            }
        }),
{
    let svg = export_document(format, colors, theme, reps);
    if output != OutputFormat::Svg {
        assert(is_export_document(svg@));
    }
    convert_from_svg(svg.as_str(), output)
}

/// Height in pixels of an exported drawing.
pub const EXPORT_HEIGHT: i32 = 1000;

/// Value of a run of decimal digits.
pub open spec fn digits_value(s: Seq<char>) -> int
    decreases s.len(),
{
    if s.len() == 0 {
        0
    } else {
        digits_value(s.drop_last()) * 10 + (s.last() as int - '0' as int)
    }
}

pub open spec fn is_digits(s: Seq<char>) -> bool {
    &&& s.len() > 0
    &&& forall|i: int| 0 <= i < s.len() ==> '0' <= #[trigger] s[i] <= '9'
}

/// The integer that `s` writes as an optional sign followed by decimal digits
/// and nothing else.
pub open spec fn integer_of(s: Seq<char>) -> Option<int> {
    if is_digits(s) {
        Some(digits_value(s))
    } else if s.len() > 0 && s[0] == '+' && is_digits(s.drop_first()) {
        Some(digits_value(s.drop_first()))
    } else if s.len() > 0 && s[0] == '-' && is_digits(s.drop_first()) {
        Some(-digits_value(s.drop_first()))
    } else {
        None
    }
}

/// The `i32` that `s` writes, if it writes one in range.
pub open spec fn i32_of(s: Seq<char>) -> Option<i32> {
    match integer_of(s) {
        Some(v) => if i32::MIN <= v <= i32::MAX {
            Some(v as i32)
        } else {
            None
        },
        None => None,
    }
}

/// Relies on `str::parse::<i32>`, documented to accept an optional `+` or `-`
/// followed by decimal digits only, and to fail where the value is out of range.
#[verifier::external_body]
fn parse_i32(s: &str) -> (r: Option<i32>)
    ensures
        r == i32_of(s@),
{
    s.parse::<i32>().ok()
}

pub open spec fn magnitude(a: int) -> int {
    if a < 0 {
        -a
    } else {
        a
    }
}

/// `a / b` rounded toward zero, as integer division of machine integers rounds.
pub open spec fn div_toward_zero(a: int, b: int) -> int {
    let q = magnitude(a) / magnitude(b);
    if (a < 0) != (b < 0) {
        -q
    } else {
        q
    }
}

/// Size in pixels of the export of a drawing whose `viewBox` attribute is
/// `view_box` (`min-x min-y width height`): `EXPORT_HEIGHT` high, and as many
/// times that wide as the box's height goes into its width, in whole times.
/// `None` where the box has no such width and height, its height is zero, or
/// the export width does not fit an `i32`.
pub open spec fn export_size_of(view_box: Seq<char>) -> Option<(int, int)> {
    let f = fields(view_box);
    if f.len() < 4 || i32_of(f[2]) is None || i32_of(f[3]) is None {
        None
    } else {
        let (w, h) = (i32_of(f[2])->0 as int, i32_of(f[3])->0 as int);
        let width = EXPORT_HEIGHT * div_toward_zero(w, h);
        if h == 0 || width < i32::MIN || width > i32::MAX {
            None
        } else {
            Some((width, EXPORT_HEIGHT as int))
        }
    }
}

/// Width and height in pixels of the export of a drawing whose `viewBox`
/// attribute is `view_box`, as `export_size_of` gives them.
pub fn export_size(view_box: &str) -> (r: Option<(i32, i32)>)
    ensures
        match r {
            Some((width, height)) => export_size_of(view_box@) == Some((width as int, height as int)),
            None => export_size_of(view_box@) is None,
        },
{
    let bounds = field_bounds(view_box);
    if bounds.len() < 4 {
        return None;
    }
    let vb_width = match parse_i32(view_box.substring_char(bounds[2].0, bounds[2].1)) {
        Some(w) => w,
        None => return None,
    };
    let vb_height = match parse_i32(view_box.substring_char(bounds[3].0, bounds[3].1)) {
        Some(h) => h,
        None => return None,
    };
    if vb_height == 0 {
        return None;
    }
    let w: i64 = if vb_width < 0 {
        -(vb_width as i64)
    } else {
        vb_width as i64
    };
    let h: i64 = if vb_height < 0 {
        -(vb_height as i64)
    } else {
        vb_height as i64
    };
    let q: i64 = w / h;
    let aspect_ratio: i64 = if (vb_width < 0) != (vb_height < 0) {
        -q
    } else {
        q
    };
    assert(0 <= q <= w) by (nonlinear_arith)
        requires
            q == w / h,
            w >= 0,
            h >= 1,
    ;
    let width: i64 = EXPORT_HEIGHT as i64 * aspect_ratio;
    if width < i32::MIN as i64 || width > i32::MAX as i64 {
        return None;
    }
    Some((width as i32, EXPORT_HEIGHT))
}

} // verus!
