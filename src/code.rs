//! A plainer highlighter: token colors passed through as the theme gives them, a choice of
//! background, and a special mode for themes written in terms of the terminal's own palette.
use crate::assets::{first_line_known, syntaxes_sound, theme_names, AssetStore, StoreSyntax};
use crate::convert::{font_modifier, indexed_color, ThemeStyle};
use crate::error::{AssetError, Error};
use crate::highlighter::{regions_text, regions_view, LineCursor};
use crate::lines::{strings_view, IntoLines};
use crate::style::{spans_view, Color, Line, Modifier, Span, Style};
use crate::text::{ending_in_newline, strip_newline, with_newline, without_newline};
use syntect::highlighting::Theme;
use vstd::prelude::*;

verus! {

/// What to paint behind tokens in place of their own background.
#[derive(Clone, Copy, Debug, PartialEq, Eq, Structural)]
pub enum OverrideBackground {
    /// No background at all.
    Empty,
    /// This color.
    Color(Color),
}

/// The foreground of a token under a palette theme: a palette index, the terminal's own
/// color for "inherit", or the 24-bit color.
pub open spec fn ansi_theme_fg(st: ThemeStyle) -> Color {
    let c = st.foreground;
    if c.a == 0 {
        indexed_color(c.r)
    } else if c.a == 1 {
        Color::Reset
    } else {
        Color::Rgb(c.r, c.g, c.b)
    }
}

/// The style of a token under a palette theme: its foreground and font flags, and only an
/// override's color as background.
pub open spec fn ansi_theme_style(st: ThemeStyle, background: Option<OverrideBackground>) -> Style {
    Style {
        fg: Some(ansi_theme_fg(st)),
        bg: match background {
            Some(OverrideBackground::Color(c)) => Some(c),
            _ => None,
        },
        add_modifier: font_modifier(st.font_style),
        sub_modifier: Modifier { bits: 0 },
    }
}

/// The style of a token under any other theme: its 24-bit colors and font flags, the
/// background replaced or removed by an override.
pub open spec fn rgb_theme_style(st: ThemeStyle, background: Option<OverrideBackground>) -> Style {
    Style {
        fg: Some(Color::Rgb(st.foreground.r, st.foreground.g, st.foreground.b)),
        bg: match background {
            Some(OverrideBackground::Empty) => None,
            Some(OverrideBackground::Color(c)) => Some(c),
            None => Some(Color::Rgb(st.background.r, st.background.g, st.background.b)),
        },
        add_modifier: font_modifier(st.font_style),
        sub_modifier: Modifier { bits: 0 },
    }
}

/// Highlights with one theme, which may be a palette theme.
#[derive(Clone)]
pub struct CodeHighlighter {
    pub theme: Theme,
    pub is_ansi_theme: bool,
    pub override_background: Option<OverrideBackground>,
}

impl CodeHighlighter {
    pub open spec fn token_style(&self, st: ThemeStyle) -> Style {
        if self.is_ansi_theme {
            ansi_theme_style(st, self.override_background)
        } else {
            rgb_theme_style(st, self.override_background)
        }
    }

    /// The lines that `regions` make, and the spans of a line not yet ended: a region ending
    /// in a newline ends a line; empty texts give no span.
    pub open spec fn split_regions(&self, regions: Seq<(ThemeStyle, Seq<char>)>) -> (
        Seq<Seq<(Seq<char>, Style)>>,
        Seq<(Seq<char>, Style)>,
    )
        decreases regions.len(),
    {
        if regions.len() == 0 {
            (seq![], seq![])
        } else {
            let (done, open) = self.split_regions(regions.drop_last());
            let (st, t) = regions.last();
            let text = strip_newline(t);
            let open2 = if text.len() == 0 {
                open
            } else {
                open.push((text, self.token_style(st)))
            };
            if t.len() > 0 && t.last() == '\n' {
                (done.push(open2), seq![])
            } else {
                (done, open2)
            }
        }
    }

    /// The finished lines of `regions`, each with a plain line style.
    pub open spec fn region_lines(&self, regions: Seq<(ThemeStyle, Seq<char>)>) -> Seq<
        (Seq<(Seq<char>, Style)>, Style),
    > {
        self.split_regions(regions).0.map_values(
            |spans: Seq<(Seq<char>, Style)>| (spans, Style::spec_new()),
        )
    }

    /// The lines of a document whose input lines were tokenized into `parts`, in order.
    pub open spec fn lines_of_parts(&self, parts: Seq<Seq<(ThemeStyle, Seq<char>)>>) -> Seq<
        (Seq<(Seq<char>, Style)>, Style),
    >
        decreases parts.len(),
    {
        if parts.len() == 0 {
            seq![]
        } else {
            self.lines_of_parts(parts.drop_last()) + self.region_lines(parts.last())
        }
    }

    /// A highlighter for a palette theme.
    pub fn new_ansi(theme: Theme) -> (r: CodeHighlighter)
        ensures
            r.theme == theme,
            r.is_ansi_theme,
            r.override_background is None,
    {
        CodeHighlighter { theme, is_ansi_theme: true, override_background: None }
    }

    /// A highlighter for the theme of the given name in `store`.
    pub fn new(store: &AssetStore, theme: &str) -> (r: Result<CodeHighlighter, AssetError>)
        ensures
            r is Ok <==> theme_names(store.themes).contains(theme@),
            r matches Ok(h) ==> !h.is_ansi_theme && h.override_background is None,
            r matches Err(e) ==> e matches AssetError::MissingTheme(n) && n@ == theme@,
    {
        match store.theme(theme) {
            Ok(theme) => Ok(CodeHighlighter { theme, is_ansi_theme: false, override_background: None }),
            Err(e) => Err(e),
        }
    }

    pub fn override_background(self, background: OverrideBackground) -> (r: CodeHighlighter)
        ensures
            r == (CodeHighlighter { override_background: Some(background), ..self }),
    {
        CodeHighlighter { override_background: Some(background), ..self }
    }

    fn syntect_style_to_tui(&self, st: ThemeStyle) -> (r: Style)
        ensures
            r == self.token_style(st),
    {
        let add_modifier = crate::convert::syntect_modifiers_to_tui(st.font_style);
        let none = Modifier { bits: 0 };
        if self.is_ansi_theme {
            let c = st.foreground;
            let fg = if c.a == 0 {
                ansi_color_to_tui(c.r)
            } else if c.a == 1 {
                Color::Reset
            } else {
                Color::Rgb(c.r, c.g, c.b)
            };
            let bg = match self.override_background {
                Some(OverrideBackground::Color(c)) => Some(c),
                _ => None,
            };
            Style { fg: Some(fg), bg, add_modifier, sub_modifier: none }
        } else {
            let f = st.foreground;
            let b = st.background;
            let bg = match self.override_background {
                Some(OverrideBackground::Empty) => None,
                Some(OverrideBackground::Color(c)) => Some(c),
                None => Some(Color::Rgb(b.r, b.g, b.b)),
            };
            Style { fg: Some(Color::Rgb(f.r, f.g, f.b)), bg, add_modifier, sub_modifier: none }
        }
    }

    /// Splits tokenized regions into lines at each region that ends in a newline.
    pub fn to_tui_text(&self, regions: &Vec<(ThemeStyle, String)>) -> (r: Vec<Line>)
        ensures
            r@.map_values(|l: Line| l@) == self.region_lines(regions_view(regions@)),
    {
        let ghost rv = regions_view(regions@);
        let mut lines: Vec<Line> = Vec::new();
        let mut spans: Vec<Span> = Vec::new();
        let mut i: usize = 0;
        while i < regions.len()
            invariant
                i <= regions@.len(),
                rv == regions_view(regions@),
                lines@.map_values(|l: Line| l@) == self.split_regions(rv.take(i as int)).0.map_values(
                    |spans: Seq<(Seq<char>, Style)>| (spans, Style::spec_new()),
                ),
                spans_view(spans@) == self.split_regions(rv.take(i as int)).1,
            decreases regions@.len() - i,
        {
            proof {
                assert(rv.take(i + 1).drop_last() =~= rv.take(i as int));
            }
            let raw = regions[i].1.as_str();
            let n = raw.unicode_len();
            let ends_line = n > 0 && raw.get_char(n - 1) == '\n';
            let text = without_newline(raw);
            let ghost before = spans@;
            if text.as_str().unicode_len() > 0 {
                let style = self.syntect_style_to_tui(regions[i].0);
                spans.push(Span::styled(text, style));
                assert(spans_view(spans@) =~= spans_view(before).push(spans@.last()@));
            }
            if ends_line {
                let ghost prev_lines = lines@;
                let ghost finished = spans_view(spans@);
                lines.push(Line { spans, style: Style::new() });
                spans = Vec::new();
                assert(lines@.map_values(|l: Line| l@) =~= prev_lines.map_values(|l: Line| l@).push(
                    (finished, Style::spec_new()),
                ));
                assert(lines@.map_values(|l: Line| l@) =~= self.split_regions(rv.take(i + 1)).0.map_values(
                    |spans: Seq<(Seq<char>, Style)>| (spans, Style::spec_new()),
                ));
                assert(spans_view(spans@) =~= self.split_regions(rv.take(i + 1)).1);
            }
            i = i + 1;
        }
        assert(rv.take(i as int) =~= rv);
        lines
    }

    /// Highlights one line, advancing the tokenizer; the line is given a newline first.
    pub fn highlight_line(&self, line: String, cursor: &mut LineCursor) -> (r: Result<
        Vec<Line>,
        Error,
    >)
        requires
            old(cursor).sound(),
        ensures
            final(cursor).sound(),
            r matches Ok(lines) ==> self.region_lines(final(cursor).last_regions())
                == lines@.map_values(|l: Line| l@) && regions_text(final(cursor).last_regions())
                == with_newline(line@),
            r matches Ok(lines) ==> exists|regions: Seq<(ThemeStyle, Seq<char>)>|
                regions_text(regions) == with_newline(line@) && #[trigger] self.region_lines(
                    regions,
                ) == lines@.map_values(|l: Line| l@),
            r matches Err(e) ==> e is Highlight,
    {
        let line = ending_in_newline(line.as_str());
        match cursor.tokenize(line.as_str()) {
            Ok(regions) => {
                Ok(self.to_tui_text(&regions))
            },
            Err(e) => Err(e),
        }
    }

    /// Highlights a document given as lines in `syntax`. The first line the tokenizer
    /// rejects fails the whole document; a document of no lines has no lines.
    pub fn highlight_lines<T: IntoLines>(&self, source: T, syntax: &StoreSyntax) -> (r: Result<
        Vec<Line>,
        Error,
    >)
        requires
            syntax.sound(),
        ensures
            r matches Ok(out) ==> exists|parts: Seq<Seq<(ThemeStyle, Seq<char>)>>|
                parts.len() == source.line_seq().len() && (forall|i: int|
                    0 <= i < parts.len() ==> regions_text(#[trigger] parts[i]) == with_newline(
                        source.line_seq()[i],
                    )) && #[trigger] self.lines_of_parts(parts) == out@.map_values(
                    |l: Line| l@,
                ),
            r matches Err(e) ==> e is Highlight,
            source.line_seq().len() == 0 ==> (r matches Ok(out) && out@.len() == 0),
    {
        let lines = source.into_lines();
        let ghost source_lines = source.line_seq();
        let mut cursor = LineCursor::new(syntax, &self.theme);
        let mut out: Vec<Line> = Vec::new();
        let mut i: usize = 0;
        let ghost mut parts: Seq<Seq<(ThemeStyle, Seq<char>)>> = seq![];
        assert(out@.map_values(|l: Line| l@) =~= seq![]);
        while i < lines.len()
            invariant
                i <= lines@.len(),
                strings_view(lines@) == source_lines,
                source_lines == source.line_seq(),
                cursor.sound(),
                parts.len() == i,
                forall|j: int|
                    0 <= j < i ==> regions_text(#[trigger] parts[j]) == with_newline(
                        source_lines[j],
                    ),
                self.lines_of_parts(parts) == out@.map_values(|l: Line| l@),
            decreases lines@.len() - i,
        {
            let line = lines[i].clone();
            match self.highlight_line(line, &mut cursor) {
                Ok(mut more) => {
                    let ghost regions = choose|regions: Seq<(ThemeStyle, Seq<char>)>|
                        regions_text(regions) == with_newline(lines@[i as int]@)
                            && #[trigger] self.region_lines(regions) == more@.map_values(
                            |l: Line| l@,
                        );
                    let ghost before = out@;
                    let ghost added = more@;
                    out.append(&mut more);
                    proof {
                        assert(strings_view(lines@)[i as int] == lines@[i as int]@);
                        assert(parts.push(regions).drop_last() =~= parts);
                        parts = parts.push(regions);
                        assert(out@.map_values(|l: Line| l@) =~= before.map_values(|l: Line| l@)
                            + added.map_values(|l: Line| l@));
                    }
                },
                Err(e) => {
                    return Err(e);
                },
            }
            i = i + 1;
        }
        Ok(out)
    }

    /// Highlights a document in the syntax that its first line names in `store`; where no
    /// syntax names it, the lookup error holds the first line (empty for no lines).
    pub fn highlight_lines_detected<T: IntoLines>(&self, store: &AssetStore, source: T) -> (r:
        Result<Result<Vec<Line>, Error>, AssetError>)
        requires
            syntaxes_sound(store.syntaxes),
        ensures
            r is Ok <==> first_line_known(
                store.syntaxes,
                if source.line_seq().len() > 0 {
                    source.line_seq()[0]
                } else {
                    seq![]
                },
            ),
            r matches Ok(Err(e)) ==> e is Highlight,
    {
        let lines = source.into_lines();
        proof {
            reveal_strlit("");
        }
        let syntax = if lines.len() > 0 {
            assert(strings_view(lines@)[0] == lines@[0]@);
            store.find_syntax_by_first_line(lines[0].as_str())
        } else {
            let empty = "";
            assert(empty@ =~= Seq::<char>::empty());
            store.find_syntax_by_first_line(empty)
        };
        match syntax {
            Ok(found) => Ok(self.highlight_lines(lines, &found)),
            Err(e) => Err(e),
        }
    }
}

/// A background override wins over every token's own background, under either kind of
/// theme: `Empty` leaves no background, a color is that color.
pub proof fn code_override_background_wins(h: CodeHighlighter, st: ThemeStyle)
    ensures
        h.override_background == Some(OverrideBackground::Empty) ==> h.token_style(st).bg is None,
        h.override_background matches Some(OverrideBackground::Color(c)) ==> h.token_style(
            st,
        ).bg == Some(c),
{
}

/// The standard color of a palette index; any index past the sixteen standard colors is
/// that entry of the 256-color palette.
fn ansi_color_to_tui(value: u8) -> (r: Color)
    ensures
        r == indexed_color(value),
{
    match value {
        0 => Color::Black,
        1 => Color::Red,
        2 => Color::Green,
        3 => Color::Yellow,
        4 => Color::Blue,
        5 => Color::Magenta,
        6 => Color::Cyan,
        7 => Color::Gray,
        8 => Color::DarkGray,
        9 => Color::LightRed,
        10 => Color::LightGreen,
        11 => Color::LightYellow,
        12 => Color::LightBlue,
        13 => Color::LightMagenta,
        14 => Color::LightCyan,
        15 => Color::White,
        _ => Color::Indexed(value),
    }
}

} // verus!
