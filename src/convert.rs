//! From theme colors and token styles to terminal colors and styles, for a given level of
//! terminal color support.
use crate::style::{Color, Modifier, Style, BOLD, ITALIC, UNDERLINED};
use termprofile::anstyle::{Ansi256Color, Color as PaletteEntry, RgbColor};
use termprofile::TermProfile;
use vstd::prelude::*;

verus! {

/// A color as a theme defines it. The alpha channel says how to read the rest:
/// alpha 0 is a terminal palette index held in `r`, alpha 1 means "no color, inherit",
/// any other alpha is a 24-bit color.
#[derive(Clone, Copy, Debug, PartialEq, Eq, Structural)]
pub struct ThemeColor {
    pub r: u8,
    pub g: u8,
    pub b: u8,
    pub a: u8,
}

/// Font flags of a theme style, one bit each.
#[derive(Clone, Copy, Debug, PartialEq, Eq, Structural)]
pub struct FontStyle {
    pub bits: u8,
}

pub const FONT_BOLD: u8 = 1;

pub const FONT_UNDERLINE: u8 = 2;

pub const FONT_ITALIC: u8 = 4;

/// The style a tokenizer gives to one region of a line.
#[derive(Clone, Copy, Debug, PartialEq, Eq, Structural)]
pub struct ThemeStyle {
    pub foreground: ThemeColor,
    pub background: ThemeColor,
    pub font_style: FontStyle,
}

/// How many colors the terminal can show, from none to any 24-bit color.
#[derive(Clone, Copy, Debug, PartialEq, Eq, Structural)]
pub enum ColorTier {
    NoColor,
    Ansi16,
    Ansi256,
    TrueColor,
}

impl ColorTier {
    pub open spec fn rank(self) -> int {
        match self {
            ColorTier::NoColor => 0,
            ColorTier::Ansi16 => 1,
            ColorTier::Ansi256 => 2,
            ColorTier::TrueColor => 3,
        }
    }
}

/// A color in the form the palette conversion works on: one of the sixteen standard colors
/// by index (below 16), an entry of the 256-color palette, or a 24-bit color.
#[derive(Clone, Copy, Debug, PartialEq, Eq, Structural)]
pub enum PaletteColor {
    Ansi(u8),
    Indexed(u8),
    Rgb(u8, u8, u8),
}

impl PaletteColor {
    pub open spec fn wf(self) -> bool {
        self matches PaletteColor::Ansi(i) ==> i < 16
    }

    /// Whether a terminal of the given tier can show this color.
    pub open spec fn fits(self, tier: ColorTier) -> bool {
        match self {
            PaletteColor::Ansi(i) => tier.rank() >= 1 && i < 16,
            PaletteColor::Indexed(_) => tier.rank() >= 2,
            PaletteColor::Rgb(_, _, _) => tier.rank() >= 3,
        }
    }
}

/// The color that termprofile's palette conversion picks for `color` on a terminal of `tier`.
pub uninterp spec fn palette_adapted(tier: ColorTier, color: PaletteColor) -> Option<PaletteColor>;

/// Relies on `termprofile::TermProfile::adapt_color`: no color below 16 colors; a color the
/// tier can show is kept; any other is replaced by its nearest palette entry that the tier
/// can show. The anstyle conversions on either side move indices and channels unchanged.
#[verifier::external_body]
fn adapt_palette(tier: ColorTier, color: PaletteColor) -> (r: Option<PaletteColor>)
    requires
        color.wf(),
    ensures
        r == palette_adapted(tier, color),
        tier == ColorTier::NoColor ==> r is None,
        tier != ColorTier::NoColor ==> r is Some && r.unwrap().wf() && r.unwrap().fits(tier),
        tier != ColorTier::NoColor && color.fits(tier) ==> r == Some(color),
{
    let profile = [TermProfile::NoColor, TermProfile::Ansi16, TermProfile::Ansi256,
        TermProfile::TrueColor][tier as usize];
    let input = match color {
        PaletteColor::Ansi(i) => Ansi256Color(i).into_ansi().map_or(
            PaletteEntry::Ansi256(Ansi256Color(i)), PaletteEntry::Ansi),
        PaletteColor::Indexed(i) => PaletteEntry::Ansi256(Ansi256Color(i)),
        PaletteColor::Rgb(r, g, b) => PaletteEntry::Rgb(RgbColor(r, g, b)),
    };
    profile.adapt_color(input).map(|c| match c {
        PaletteEntry::Ansi(a) => PaletteColor::Ansi(Ansi256Color::from_ansi(a).0),
        PaletteEntry::Ansi256(i) => PaletteColor::Indexed(i.0),
        PaletteEntry::Rgb(c) => PaletteColor::Rgb(c.0, c.1, c.2),
    })
}

/// The terminal color of one of the sixteen standard colors, by index; any other index is
/// an entry of the 256-color palette.
pub open spec fn indexed_color(i: u8) -> Color {
    if i == 0 { Color::Black }
    else if i == 1 { Color::Red }
    else if i == 2 { Color::Green }
    else if i == 3 { Color::Yellow }
    else if i == 4 { Color::Blue }
    else if i == 5 { Color::Magenta }
    else if i == 6 { Color::Cyan }
    else if i == 7 { Color::Gray }
    else if i == 8 { Color::DarkGray }
    else if i == 9 { Color::LightRed }
    else if i == 10 { Color::LightGreen }
    else if i == 11 { Color::LightYellow }
    else if i == 12 { Color::LightBlue }
    else if i == 13 { Color::LightMagenta }
    else if i == 14 { Color::LightCyan }
    else if i == 15 { Color::White }
    else { Color::Indexed(i) }
}

/// The standard-color index of a terminal color, where it has one.
pub open spec fn standard_index(c: Color) -> Option<u8> {
    match c {
        Color::Black => Some(0u8),
        Color::Red => Some(1u8),
        Color::Green => Some(2u8),
        Color::Yellow => Some(3u8),
        Color::Blue => Some(4u8),
        Color::Magenta => Some(5u8),
        Color::Cyan => Some(6u8),
        Color::Gray => Some(7u8),
        Color::DarkGray => Some(8u8),
        Color::LightRed => Some(9u8),
        Color::LightGreen => Some(10u8),
        Color::LightYellow => Some(11u8),
        Color::LightBlue => Some(12u8),
        Color::LightMagenta => Some(13u8),
        Color::LightCyan => Some(14u8),
        Color::White => Some(15u8),
        _ => None,
    }
}

pub open spec fn palette_to_color(p: PaletteColor) -> Color {
    match p {
        PaletteColor::Ansi(i) => indexed_color(i),
        PaletteColor::Indexed(i) => Color::Indexed(i),
        PaletteColor::Rgb(r, g, b) => Color::Rgb(r, g, b),
    }
}

pub open spec fn color_to_palette(c: Color) -> Option<PaletteColor> {
    match c {
        Color::Reset => None,
        Color::Indexed(i) => Some(PaletteColor::Indexed(i)),
        Color::Rgb(r, g, b) => Some(PaletteColor::Rgb(r, g, b)),
        _ => Some(PaletteColor::Ansi(standard_index(c).unwrap())),
    }
}

/// A 24-bit color as a terminal of the given tier shows it.
pub open spec fn rgb_for_tier(tier: ColorTier, r: u8, g: u8, b: u8) -> Option<Color> {
    match tier {
        ColorTier::NoColor => None,
        ColorTier::TrueColor => Some(Color::Rgb(r, g, b)),
        _ => match palette_adapted(tier, PaletteColor::Rgb(r, g, b)) {
            Some(p) => Some(palette_to_color(p)),
            None => None,
        },
    }
}

/// A theme color as a terminal of the given tier shows it, or `None` for "no color".
pub open spec fn theme_color_for(c: ThemeColor, tier: ColorTier) -> Option<Color> {
    if c.a == 0 {
        Some(indexed_color(c.r))
    } else if c.a == 1 {
        None
    } else {
        rgb_for_tier(tier, c.r, c.g, c.b)
    }
}

/// Any terminal color as a terminal of the given tier shows it. A reset stays a reset
/// wherever colors are shown at all.
pub open spec fn color_for_tier(c: Color, tier: ColorTier) -> Option<Color> {
    if tier == ColorTier::NoColor {
        None
    } else if color_fits(c, tier) {
        Some(c)
    } else {
        match palette_adapted(tier, color_to_palette(c).unwrap()) {
            Some(q) => Some(palette_to_color(q)),
            None => None,
        }
    }
}

/// Whether a terminal of the given tier can show the color; a reset needs some color support.
pub open spec fn color_fits(c: Color, tier: ColorTier) -> bool {
    match color_to_palette(c) {
        None => tier.rank() >= 1,
        Some(p) => p.fits(tier),
    }
}

proof fn lemma_palette_round_trip(c: Color)
    ensures
        color_to_palette(c) matches Some(p) ==> p.wf() && palette_to_color(p) == c,
{
}

proof fn lemma_palette_color_round_trip(p: PaletteColor)
    requires
        p.wf(),
    ensures
        color_to_palette(palette_to_color(p)) == Some(p),
        palette_to_color(p) != Color::Reset,
{
    if let PaletteColor::Ansi(i) = p {
        assert(i < 16);
        if i == 0 {} else if i == 1 {} else if i == 2 {} else if i == 3 {} else if i == 4 {}
        else if i == 5 {} else if i == 6 {} else if i == 7 {} else if i == 8 {} else if i == 9 {}
        else if i == 10 {} else if i == 11 {} else if i == 12 {} else if i == 13 {}
        else if i == 14 {} else {}
    }
}

/// The text modifiers of a theme's font flags: bold, italic and underline; others are dropped.
pub open spec fn font_modifier(f: FontStyle) -> Modifier {
    Modifier {
        bits: (if f.bits & FONT_BOLD != 0 { BOLD } else { 0u16 }) | (if f.bits & FONT_ITALIC != 0 {
            ITALIC
        } else {
            0u16
        }) | (if f.bits & FONT_UNDERLINE != 0 { UNDERLINED } else { 0u16 }),
    }
}

/// A token style as a terminal of the given tier shows it.
pub open spec fn theme_style_for(s: ThemeStyle, tier: ColorTier) -> Style {
    Style {
        fg: theme_color_for(s.foreground, tier),
        bg: theme_color_for(s.background, tier),
        add_modifier: font_modifier(s.font_style),
        sub_modifier: Modifier { bits: 0 },
    }
}

/// A style whose colors are each shown as a terminal of the given tier shows them.
pub open spec fn style_for_tier(s: Style, tier: ColorTier) -> Style {
    Style {
        fg: match s.fg {
            Some(c) => color_for_tier(c, tier),
            None => None,
        },
        bg: match s.bg {
            Some(c) => color_for_tier(c, tier),
            None => None,
        },
        ..s
    }
}

fn color_from_index(i: u8) -> (r: Color)
    ensures
        r == indexed_color(i),
{
    match i {
        0 => Color::Black,
        1 => Color::Red,
        2 => Color::Green,
        3 => Color::Yellow,
        4 => Color::Blue,
        5 => Color::Magenta,
        6 => Color::Cyan,
        7 => Color::Gray,
        8 => Color::DarkGray,
        9 => Color::LightRed,
        10 => Color::LightGreen,
        11 => Color::LightYellow,
        12 => Color::LightBlue,
        13 => Color::LightMagenta,
        14 => Color::LightCyan,
        15 => Color::White,
        _ => Color::Indexed(i),
    }
}

fn color_of_palette(p: PaletteColor) -> (r: Color)
    ensures
        r == palette_to_color(p),
{
    match p {
        PaletteColor::Ansi(i) => color_from_index(i),
        PaletteColor::Indexed(i) => Color::Indexed(i),
        PaletteColor::Rgb(r, g, b) => Color::Rgb(r, g, b),
    }
}

fn palette_of_color(c: Color) -> (r: Option<PaletteColor>)
    ensures
        r == color_to_palette(c),
        r matches Some(p) ==> p.wf(),
{
    match c {
        Color::Reset => None,
        Color::Black => Some(PaletteColor::Ansi(0)),
        Color::Red => Some(PaletteColor::Ansi(1)),
        Color::Green => Some(PaletteColor::Ansi(2)),
        Color::Yellow => Some(PaletteColor::Ansi(3)),
        Color::Blue => Some(PaletteColor::Ansi(4)),
        Color::Magenta => Some(PaletteColor::Ansi(5)),
        Color::Cyan => Some(PaletteColor::Ansi(6)),
        Color::Gray => Some(PaletteColor::Ansi(7)),
        Color::DarkGray => Some(PaletteColor::Ansi(8)),
        Color::LightRed => Some(PaletteColor::Ansi(9)),
        Color::LightGreen => Some(PaletteColor::Ansi(10)),
        Color::LightYellow => Some(PaletteColor::Ansi(11)),
        Color::LightBlue => Some(PaletteColor::Ansi(12)),
        Color::LightMagenta => Some(PaletteColor::Ansi(13)),
        Color::LightCyan => Some(PaletteColor::Ansi(14)),
        Color::White => Some(PaletteColor::Ansi(15)),
        Color::Rgb(r, g, b) => Some(PaletteColor::Rgb(r, g, b)),
        Color::Indexed(i) => Some(PaletteColor::Indexed(i)),
    }
}

/// Shows any terminal color on a terminal of the given tier.
pub fn adapt_color(color: Color, tier: ColorTier) -> (r: Option<Color>)
    ensures
        r == color_for_tier(color, tier),
        tier != ColorTier::NoColor ==> r is Some && color_fits(r.unwrap(), tier),
        tier != ColorTier::NoColor && color_fits(color, tier) ==> r == Some(color),
{
    if tier == ColorTier::NoColor {
        return None;
    }
    proof {
        lemma_palette_round_trip(color);
    }
    match palette_of_color(color) {
        None => Some(color),
        Some(p) => match adapt_palette(tier, p) {
            Some(q) => {
                proof {
                    lemma_palette_color_round_trip(q);
                }
                Some(color_of_palette(q))
            },
            None => None,
        },
    }
}

/// Shows the colors of a style on a terminal of the given tier; its modifiers are kept.
pub fn adapt_style(style: Style, tier: ColorTier) -> (r: Style)
    ensures
        r == style_for_tier(style, tier),
{
    let fg = match style.fg {
        Some(c) => adapt_color(c, tier),
        None => None,
    };
    let bg = match style.bg {
        Some(c) => adapt_color(c, tier),
        None => None,
    };
    Style { fg, bg, ..style }
}

/// Converts theme colors and token styles for one terminal color tier.
#[derive(Clone, Copy, Debug, PartialEq, Eq, Structural)]
pub struct Converter {
    pub profile: ColorTier,
}

impl Default for Converter {
    fn default() -> (r: Converter)
        ensures
            r.profile == ColorTier::TrueColor,
    {
        Converter::new()
    }
}

impl Converter {
    /// A converter for a terminal that shows any 24-bit color.
    pub fn new() -> (r: Converter)
        ensures
            r.profile == ColorTier::TrueColor,
    {
        Converter { profile: ColorTier::TrueColor }
    }

    pub fn with_profile(profile: ColorTier) -> (r: Converter)
        ensures
            r.profile == profile,
    {
        Converter { profile }
    }

    /// The terminal color of a theme color, or `None` where the theme asks for no color or
    /// the terminal shows none.
    pub fn syntect_color_to_tui(&self, color: ThemeColor) -> (r: Option<Color>)
        ensures
            r == theme_color_for(color, self.profile),
            color.a > 1 && self.profile != ColorTier::NoColor ==> r is Some && color_fits(
                r.unwrap(),
                self.profile,
            ) && r != Some(Color::Reset),
    {
        if color.a == 0 {
            Some(color_from_index(color.r))
        } else if color.a == 1 {
            None
        } else {
            match adapt_palette(self.profile, PaletteColor::Rgb(color.r, color.g, color.b)) {
                Some(p) => {
                    proof {
                        lemma_palette_color_round_trip(p);
                    }
                    Some(color_of_palette(p))
                },
                None => None,
            }
        }
    }

    /// The terminal style of a token style: its colors converted, its bold, italic and
    /// underline flags carried over.
    pub fn syntect_style_to_tui(&self, style: ThemeStyle) -> (r: Style)
        ensures
            r == theme_style_for(style, self.profile),
    {
        let fg = self.syntect_color_to_tui(style.foreground);
        let bg = self.syntect_color_to_tui(style.background);
        let add = syntect_modifiers_to_tui(style.font_style);
        Style { fg, bg, add_modifier: add, sub_modifier: Modifier { bits: 0 } }
    }
}

pub(crate) fn syntect_modifiers_to_tui(font: FontStyle) -> (r: Modifier)
    ensures
        r == font_modifier(font),
{
    let bold: u16 = if font.bits & FONT_BOLD != 0 { BOLD } else { 0 };
    let italic: u16 = if font.bits & FONT_ITALIC != 0 { ITALIC } else { 0 };
    let underline: u16 = if font.bits & FONT_UNDERLINE != 0 { UNDERLINED } else { 0 };
    Modifier { bits: bold | italic | underline }
}

/// A palette-index theme color below 16 is one of the sixteen standard colors, the same on
/// every terminal tier.
pub proof fn standard_theme_color_ignores_tier(c: ThemeColor, t1: ColorTier, t2: ColorTier)
    requires
        c.a == 0,
        c.r < 16,
    ensures
        theme_color_for(c, t1) == theme_color_for(c, t2),
        theme_color_for(c, t1) == Some(indexed_color(c.r)),
        standard_index(indexed_color(c.r)) == Some(c.r),
{
}

/// An "inherit" theme color gives no color on any terminal tier.
pub proof fn inherit_gives_no_color(c: ThemeColor, tier: ColorTier)
    requires
        c.a == 1,
    ensures
        theme_color_for(c, tier) is None,
{
}

/// On a true-color terminal a 24-bit theme color comes out with the same channels.
pub proof fn true_color_keeps_rgb(c: ThemeColor)
    requires
        c.a > 1,
    ensures
        theme_color_for(c, ColorTier::TrueColor) == Some(Color::Rgb(c.r, c.g, c.b)),
{
}

/// On a terminal without colors no 24-bit theme color is shown.
pub proof fn no_color_drops_rgb(c: ThemeColor)
    requires
        c.a > 1,
    ensures
        theme_color_for(c, ColorTier::NoColor) is None,
{
}

/// On a true-color terminal every color, and so every style, is shown as it is.
pub proof fn true_color_keeps_every_color(c: Color, s: Style)
    ensures
        color_for_tier(c, ColorTier::TrueColor) == Some(c),
        style_for_tier(s, ColorTier::TrueColor) == s,
{
    assert forall|x: Color| color_for_tier(x, ColorTier::TrueColor) == Some(x) by {
        lemma_palette_round_trip(x);
    }
    assert(style_for_tier(s, ColorTier::TrueColor) =~= s);
}

} // verus!
