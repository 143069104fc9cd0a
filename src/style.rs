//! The renderable side: terminal colors, text modifiers, styles, spans and lines.
//!
//! These types have the shape of the rendering toolkit's own (`ratatui::style::Color`,
//! `Modifier`, `Style`, `ratatui::text::Span`, `Line`), held as plain values so that
//! contracts can speak of them.
use vstd::prelude::*;

verus! {

/// A color as a terminal renders it.
#[derive(Clone, Copy, Debug, PartialEq, Eq, Structural)]
pub enum Color {
    /// The terminal's own default color.
    Reset,
    Black,
    Red,
    Green,
    Yellow,
    Blue,
    Magenta,
    Cyan,
    Gray,
    DarkGray,
    LightRed,
    LightGreen,
    LightYellow,
    LightBlue,
    LightMagenta,
    LightCyan,
    White,
    /// A 24-bit color.
    Rgb(u8, u8, u8),
    /// An entry of the 256-color palette.
    Indexed(u8),
}

/// A set of text modifiers, one bit each.
#[derive(Clone, Copy, Debug, PartialEq, Eq, Structural)]
pub struct Modifier {
    pub bits: u16,
}

pub const BOLD: u16 = 1;

pub const ITALIC: u16 = 4;

pub const UNDERLINED: u16 = 8;

impl Modifier {
    pub fn empty() -> (r: Modifier)
        ensures
            r.bits == 0,
    {
        Modifier { bits: 0 }
    }

    pub open spec fn spec_remove(self, other: Modifier) -> Modifier {
        Modifier { bits: self.bits & !other.bits }
    }

    pub open spec fn spec_insert(self, other: Modifier) -> Modifier {
        Modifier { bits: self.bits | other.bits }
    }
}

/// How a run of text is painted. A color left at `None` inherits from what lies beneath.
#[derive(Clone, Copy, Debug, PartialEq, Eq, Structural)]
pub struct Style {
    pub fg: Option<Color>,
    pub bg: Option<Color>,
    pub add_modifier: Modifier,
    pub sub_modifier: Modifier,
}

impl Style {
    /// The style that sets nothing.
    pub open spec fn spec_new() -> Style {
        Style {
            fg: None,
            bg: None,
            add_modifier: Modifier { bits: 0 },
            sub_modifier: Modifier { bits: 0 },
        }
    }

    /// `other` laid over `self`: each color that `other` sets wins, and its modifiers are
    /// added and removed on top of those of `self`.
    pub open spec fn spec_patch(self, other: Style) -> Style {
        Style {
            fg: if other.fg is Some { other.fg } else { self.fg },
            bg: if other.bg is Some { other.bg } else { self.bg },
            add_modifier: self.add_modifier.spec_remove(other.sub_modifier).spec_insert(
                other.add_modifier,
            ),
            sub_modifier: self.sub_modifier.spec_remove(other.add_modifier).spec_insert(
                other.sub_modifier,
            ),
        }
    }

    pub fn new() -> (r: Style)
        ensures
            r == Style::spec_new(),
    {
        Style {
            fg: None,
            bg: None,
            add_modifier: Modifier { bits: 0 },
            sub_modifier: Modifier { bits: 0 },
        }
    }

    pub fn fg(self, color: Color) -> (r: Style)
        ensures
            r == (Style { fg: Some(color), ..self }),
    {
        Style { fg: Some(color), ..self }
    }

    pub fn bg(self, color: Color) -> (r: Style)
        ensures
            r == (Style { bg: Some(color), ..self }),
    {
        Style { bg: Some(color), ..self }
    }

    /// Adds the modifiers of `m`, and stops removing them.
    pub fn add_modifier(self, m: Modifier) -> (r: Style)
        ensures
            r == (Style {
                add_modifier: self.add_modifier.spec_insert(m),
                sub_modifier: self.sub_modifier.spec_remove(m),
                ..self
            }),
    {
        Style {
            add_modifier: Modifier { bits: self.add_modifier.bits | m.bits },
            sub_modifier: Modifier { bits: self.sub_modifier.bits & !m.bits },
            ..self
        }
    }

    pub fn patch(self, other: Style) -> (r: Style)
        ensures
            r == self.spec_patch(other),
    {
        let fg = if other.fg.is_some() {
            other.fg
        } else {
            self.fg
        };
        let bg = if other.bg.is_some() {
            other.bg
        } else {
            self.bg
        };
        Style {
            fg,
            bg,
            add_modifier: Modifier {
                bits: (self.add_modifier.bits & !other.sub_modifier.bits) | other.add_modifier.bits,
            },
            sub_modifier: Modifier {
                bits: (self.sub_modifier.bits & !other.add_modifier.bits) | other.sub_modifier.bits,
            },
        }
    }
}

/// A run of text painted in one style.
#[derive(Clone, Debug, PartialEq, Eq)]
pub struct Span {
    pub content: String,
    pub style: Style,
}

impl View for Span {
    type V = (Seq<char>, Style);

    open spec fn view(&self) -> (Seq<char>, Style) {
        (self.content@, self.style)
    }
}

/// The text and style of each span, in order.
pub open spec fn spans_view(spans: Seq<Span>) -> Seq<(Seq<char>, Style)> {
    spans.map_values(|s: Span| s@)
}

impl Span {
    pub fn styled(content: String, style: Style) -> (r: Span)
        ensures
            r@ == (content@, style),
    {
        Span { content, style }
    }
}

/// One line of output: its spans from left to right, and the style under all of them.
#[derive(Clone, Debug, PartialEq, Eq)]
pub struct Line {
    pub spans: Vec<Span>,
    pub style: Style,
}

impl View for Line {
    type V = (Seq<(Seq<char>, Style)>, Style);

    open spec fn view(&self) -> (Seq<(Seq<char>, Style)>, Style) {
        (spans_view(self.spans@), self.style)
    }
}

impl Line {
    /// Lays `style` over the style of the whole line.
    pub fn patch_style(self, style: Style) -> (r: Line)
        ensures
            r.spans@ == self.spans@,
            r.style == self.style.spec_patch(style),
    {
        Line { spans: self.spans, style: self.style.patch(style) }
    }

    /// Sets the background of the whole line.
    pub fn bg(self, color: Color) -> (r: Line)
        ensures
            r.spans@ == self.spans@,
            r.style == (Style { bg: Some(color), ..self.style }),
    {
        Line { spans: self.spans, style: self.style.bg(color) }
    }
}

} // verus!
