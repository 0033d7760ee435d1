use pattern_editor::decimal::push_decimal;
use pattern_editor::drawing::{export_document, is_plain_color};
use pattern_editor::export::{convert_from_svg, export_file, export_size, OutputFormat};
use pattern_editor::tiling::TilingFormat;
use pattern_editor::painting::{paints, TileColor};
use pattern_editor::theme::{Theme, ThemeData};

fn theme_data() -> ThemeData {
    ThemeData {
        background: String::from("rgb(1, 2, 3)"),
        primary: String::from("rgb(4, 5, 6)"),
        secondary: String::from("rgb(7, 8, 9)"),
        misc: String::from("rgb(10, 11, 12)"),
        highlight: String::from("rgb(13, 14, 15)"),
    }
}

const SVG: &str = r#"<svg xmlns="http://www.w3.org/2000/svg" viewBox="0 0 5 5" width="1000" height="1000"><polygon points="0,0 1,0 0.8,1 0,1" fill="rgb(4, 5, 6)"/></svg>"#;

#[test]
fn theme_names() {
    assert_eq!(Theme::Bubbles.name(), "bubbles");
    assert_eq!(Theme::Icy.name(), "icy");
    assert_eq!(Theme::Glisten.name(), "glisten");
    assert_eq!(Theme::Noble.name(), "noble");
    assert_eq!(Theme::default(), Theme::Bubbles);
}

#[test]
fn export_fill_per_colour() {
    let data = theme_data();
    assert_eq!(data.fill(TileColor::Primary), "rgb(4, 5, 6)");
    assert_eq!(data.fill(TileColor::Secondary), "rgb(7, 8, 9)");
    assert_eq!(data.fill(TileColor::Empty), "rgb(1, 2, 3)");
    assert_eq!(data.fill(TileColor::default()), "rgb(1, 2, 3)");
}

#[test]
fn painting_needs_the_primary_button() {
    assert!(paints(0b01));
    assert!(paints(0b11));
    assert!(!paints(0b10));
    assert!(!paints(0));
    assert!(paints(u16::MAX));
}

#[test]
fn output_format_names() {
    assert_eq!(OutputFormat::Svg.extension(), "svg");
    assert_eq!(OutputFormat::Ai.extension(), "ai");
    assert_eq!(OutputFormat::Pdf.extension(), "pdf");
    assert_eq!(OutputFormat::Svg.to_string(), ".svg");
    assert_eq!(OutputFormat::Ai.to_string(), ".ai");
    assert_eq!(OutputFormat::Pdf.file_name("Pattern"), "Pattern.pdf");
    assert_eq!(OutputFormat::Svg.file_name(""), ".svg");
}

#[test]
fn output_formats_by_index() {
    assert_eq!(OutputFormat::from_index(0), Some(OutputFormat::Svg));
    assert_eq!(OutputFormat::from_index(1), Some(OutputFormat::Ai));
    assert_eq!(OutputFormat::from_index(2), Some(OutputFormat::Pdf));
    assert_eq!(OutputFormat::from_index(3), None);
    for format in [OutputFormat::Svg, OutputFormat::Ai, OutputFormat::Pdf] {
        assert_eq!(OutputFormat::from_index(format as u8), Some(format));
    }
}

#[test]
fn svg_export_keeps_the_text() {
    assert_eq!(convert_from_svg(SVG, OutputFormat::Svg), Ok(SVG.as_bytes().to_vec()));
    assert_eq!(convert_from_svg("ä", OutputFormat::Svg), Ok(vec![0xc3, 0xa4]));
}

fn painted(n: usize) -> Vec<TileColor> {
    (0..n)
        .map(|i| match i % 3 {
            0 => TileColor::Primary,
            1 => TileColor::Secondary,
            _ => TileColor::Empty,
        })
        .collect()
}

#[test]
fn exported_drawing_of_smallest_format() {
    let doc = export_document(TilingFormat::F5X5, &vec![TileColor::Empty; 50], &theme_data(), 2);
    let head = r#"<svg xmlns="http://www.w3.org/2000/svg" viewBox="0 0 10 5" width="2000" height="1000">"#;
    let first = r#"<polygon points="0,0 1,0 0.8,1 0,1" fill="rgb(1, 2, 3)" stroke="rgb(1, 2, 3)" stroke-width="0.05"/>"#;
    assert!(doc.starts_with(&format!("{head}{first}")));
    assert!(doc.ends_with("</svg>"));
    assert_eq!(doc.matches("<polygon").count(), 100);
    assert!(doc.contains(r#"<polygon points="5,0 6,0 5.8,1 5,1""#));
    assert!(doc.contains(r#"points="9.2,4 10,4 10,5 9,5""#));
}

#[test]
fn exported_drawing_uses_tile_colours() {
    let doc = export_document(TilingFormat::F10X15, &painted(300), &theme_data(), 1);
    assert!(doc.starts_with(r#"<svg xmlns="http://www.w3.org/2000/svg" viewBox="0 0 10 15" width="0" height="1000">"#));
    assert_eq!(doc.matches(r#"fill="rgb(4, 5, 6)""#).count(), 100);
    assert_eq!(doc.matches(r#"fill="rgb(7, 8, 9)""#).count(), 100);
    assert_eq!(doc.matches(r#"fill="rgb(1, 2, 3)""#).count(), 100);
}

#[test]
fn print_exports_are_pdf_documents() {
    let colors = painted(200);
    let svg = export_file(TilingFormat::F10X10, &colors, &theme_data(), 3, OutputFormat::Svg).unwrap();
    let doc = export_document(TilingFormat::F10X10, &colors, &theme_data(), 3);
    assert_eq!(svg, doc.as_bytes());
    for format in [OutputFormat::Pdf, OutputFormat::Ai] {
        let bytes = export_file(TilingFormat::F10X10, &colors, &theme_data(), 3, format)
            .expect("the drawing converts");
        assert!(bytes.starts_with(b"%PDF-"));
        assert_ne!(bytes, svg);
    }
    assert_eq!(
        export_file(TilingFormat::F10X10, &colors, &theme_data(), 3, OutputFormat::Pdf),
        export_file(TilingFormat::F10X10, &colors, &theme_data(), 3, OutputFormat::Ai)
    );
}

#[test]
fn drawing_without_width_does_not_convert() {
    let result = export_file(TilingFormat::F10X15, &painted(300), &theme_data(), 1, OutputFormat::Pdf);
    let err = result.unwrap_err();
    assert!(!err.is_empty());
}

#[test]
fn plain_colours() {
    assert!(is_plain_color("rgb(12, 34, 56)"));
    assert!(is_plain_color("hsl(10.5, 20%, 30%)"));
    assert!(is_plain_color(""));
    assert!(!is_plain_color("red\" opacity=\"0.5"));
    assert!(!is_plain_color("url(#x)"));
    assert!(!is_plain_color("<g>"));
}

#[test]
fn decimal_text_of_thousandths() {
    let cases: [(i128, &str); 8] = [
        (0, "0"),
        (1000, "1"),
        (800, "0.8"),
        (1250, "1.25"),
        (1001, "1.001"),
        (-200, "-0.2"),
        (123_456_000, "123456"),
        (10_050, "10.05"),
    ];
    for (t, text) in cases {
        let mut s = String::from("x=");
        push_decimal(&mut s, t);
        assert_eq!(s, format!("x={text}"));
    }
}

#[test]
fn theme_colours_from_style_values() {
    assert_eq!(ThemeData::color("12 34 56"), "rgb(12, 34, 56)");
    assert_eq!(ThemeData::color("1 2 3 4"), "rgb(1, 2, 3)");
    assert_eq!(ThemeData::color("1  2 3"), "rgb(1, , 2)");
    assert!(ThemeData::is_color("12 34 56"));
    assert!(ThemeData::is_color("1  2"));
    assert!(!ThemeData::is_color("1 2"));
    assert!(!ThemeData::is_color(""));
    assert_eq!(ThemeData::property_name("primary"), "--theme-primary");
}

#[test]
fn theme_data_from_every_colour() {
    let data = ThemeData::load("0 0 0", "255 0 0", "0 255 0", "0 0 255", "9 9 9");
    assert_eq!(data.background, "rgb(0, 0, 0)");
    assert_eq!(data.primary, "rgb(255, 0, 0)");
    assert_eq!(data.secondary, "rgb(0, 255, 0)");
    assert_eq!(data.misc, "rgb(0, 0, 255)");
    assert_eq!(data.highlight, "rgb(9, 9, 9)");
}

#[test]
fn export_size_from_view_box() {
    assert_eq!(export_size("0 0 5 5"), Some((1000, 1000)));
    assert_eq!(export_size("0 0 15 5"), Some((3000, 1000)));
    assert_eq!(export_size("0 0 10 15"), Some((0, 1000)));
    assert_eq!(export_size("0 0 +6 3"), Some((2000, 1000)));
    assert_eq!(export_size("0 0 -7 2"), Some((-3000, 1000)));
    assert_eq!(export_size("0 0 15"), None);
    assert_eq!(export_size("0 0 a 5"), None);
    assert_eq!(export_size("0 0 5 0"), None);
    assert_eq!(export_size("0 0 5000000 1"), None);
    assert_eq!(export_size("0 0 99999999999 1"), None);
}
