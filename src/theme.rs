//! The colour themes and the colours a theme gives to tiles.

use vstd::prelude::*;
use crate::fields::{field_bounds, fields};
use crate::painting::TileColor;

verus! {

/// The colour themes on offer.
#[derive(Debug, Clone, Copy, PartialEq, Eq, Structural)]
pub enum Theme {
    Bubbles,
    Icy,
    Glisten,
    Noble,
}

/// The name under which a theme's colours are defined in the style sheet.
pub open spec fn theme_name(theme: Theme) -> Seq<char> {
    match theme {
        Theme::Bubbles => "bubbles"@,
        Theme::Icy => "icy"@,
        Theme::Glisten => "glisten"@,
        Theme::Noble => "noble"@,
    }
}

impl Theme {
    pub fn name(self) -> (r: &'static str)
        ensures
            r@ == theme_name(self),
    {
        match self {
            Theme::Bubbles => "bubbles",
            Theme::Icy => "icy",
            Theme::Glisten => "glisten",
            Theme::Noble => "noble",
        }
    }
}

impl Default for Theme {
    fn default() -> (r: Self)
        ensures
            r == Theme::Bubbles,
    {
        Theme::Bubbles
    }
}

/// The CSS colour of a theme variable whose value is `value`: the value holds
/// the red, green and blue components as its first three fields, which go
/// into `rgb(r, g, b)`. `None` where the value has fewer than three fields.
pub open spec fn color_of(value: Seq<char>) -> Option<Seq<char>> {
    let f = fields(value);
    if f.len() >= 3 {
        Some("rgb("@ + f[0] + ", "@ + f[1] + ", "@ + f[2] + ")"@)
    } else {
        None
    }
}

/// The name of the style sheet variable that holds the theme colour `name`.
pub open spec fn property_of(name: Seq<char>) -> Seq<char> {
    "--theme-"@ + name
}

/// The colours of the active theme, each as a CSS colour.
#[derive(Debug)]
pub struct ThemeData {
    pub background: String,
    pub primary: String,
    pub secondary: String,
    pub misc: String,
    pub highlight: String,
}

impl ThemeData {
    /// The name of the style sheet variable that holds the theme colour `name`.
    pub fn property_name(name: &str) -> (r: String)
        ensures
            r@ == property_of(name@),
    {
        let mut s = String::from_str("--theme-");
        s.append(name);
        s
    }

    /// Whether `value` holds a colour: at least three fields.
    pub fn is_color(value: &str) -> (r: bool)
        ensures
            r == (color_of(value@) is Some),
    {
        field_bounds(value).len() >= 3
    }

    /// The CSS colour of a theme variable whose value is `value`, as
    /// `color_of` gives it.
    pub fn color(value: &str) -> (r: String)
        requires
            color_of(value@) is Some,
        ensures
            color_of(value@) == Some(r@),
    {
        let bounds = field_bounds(value);
        proof {
            reveal_strlit("rgb(");
            reveal_strlit(", ");
            reveal_strlit(")");
        }
        let mut s = String::from_str("rgb(");
        s.append(value.substring_char(bounds[0].0, bounds[0].1));
        s.append(", ");
        s.append(value.substring_char(bounds[1].0, bounds[1].1));
        s.append(", ");
        s.append(value.substring_char(bounds[2].0, bounds[2].1));
        s.append(")");
        s
    }

    /// The theme's colours from the values of its five style sheet variables.
    pub fn load(
        background: &str,
        primary: &str,
        secondary: &str,
        misc: &str,
        highlight: &str,
    ) -> (r: ThemeData)
        requires
            color_of(background@) is Some,
            color_of(primary@) is Some,
            color_of(secondary@) is Some,
            color_of(misc@) is Some,
            color_of(highlight@) is Some,
        ensures
            color_of(background@) == Some(r.background@),
            color_of(primary@) == Some(r.primary@),
            color_of(secondary@) == Some(r.secondary@),
            color_of(misc@) == Some(r.misc@),
            color_of(highlight@) == Some(r.highlight@),
    {
        ThemeData {
            background: Self::color(background),
            primary: Self::color(primary),
            secondary: Self::color(secondary),
            misc: Self::color(misc),
            highlight: Self::color(highlight),
        }
    }

    /// The colour that fills a tile of colour `color` in an exported drawing;
    /// unpainted tiles take the background.
    pub fn fill(&self, color: TileColor) -> (r: String)
        ensures
            r@ == match color {
                TileColor::Primary => self.primary@,
                TileColor::Secondary => self.secondary@,
                TileColor::Empty => self.background@,
            },
    {
        match color {
            TileColor::Primary => self.primary.clone(),
            TileColor::Secondary => self.secondary.clone(),
            TileColor::Empty => self.background.clone(),
        }
    }
}

} // verus!
