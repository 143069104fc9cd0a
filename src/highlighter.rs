//! The highlighter: configuration, the line-number gutter, and the composition of one
//! tokenized line into a styled line.
use crate::convert::{
    adapt_color, adapt_style, color_for_tier, style_for_tier, theme_color_for, theme_style_for,
    ColorTier, Converter, FontStyle, ThemeColor, ThemeStyle,
};
use crate::assets::{syntax_of, syntaxes_sound, StoreSyntax};
use crate::error::Error;
use crate::lines::{strings_view, IntoLines};
use crate::style::{spans_view, Color, Line, Span, Style};
use crate::text::{
    decimal, decimal_string, ending_in_newline, space_string, spaces, strip_newline, with_newline,
    without_newline,
};
use std::ops::Range;
use std::sync::Arc;
use syntect::easy::HighlightLines;
use syntect::highlighting::Theme;
use syntect::parsing::{SyntaxReference, SyntaxSet};
use vstd::prelude::*;

verus! {

/// syntect's theme, carried whole to the tokenizer; its settings are read through the
/// wrappers below.
#[verifier::external_type_specification]
#[verifier::external_body]
pub struct ExTheme(Theme);

/// Relies on syntect's derived `Clone` for `Theme`; a cloned highlighter carries a copy.
pub assume_specification[ <Theme as Clone>::clone ](theme: &Theme) -> Theme;

/// syntect's syntax definition, handed to the tokenizer unopened.
#[verifier::external_type_specification]
#[verifier::external_body]
pub struct ExSyntaxReference(SyntaxReference);

/// syntect's set of syntax definitions, handed to the tokenizer unopened.
#[verifier::external_type_specification]
#[verifier::external_body]
pub struct ExSyntaxSet(SyntaxSet);

/// syntect's tokenizer cursor, which keeps the parse state from one line to the next.
#[verifier::external_type_specification]
#[verifier::external_body]
pub struct ExHighlightLines<'a>(HighlightLines<'a>);

/// Whether the cursor's syntax is one of the set's, so that its contexts resolve there.
pub uninterp spec fn cursor_in(cursor: HighlightLines, set: SyntaxSet) -> bool;

/// Relies on `syntect::easy::HighlightLines::new`: a tokenizer cursor at the start of a
/// document in `syntax`, styling with `theme`. It panics where the syntax has no `__start`
/// context, which `requires` leaves out: the syntax is one of a sound set. The set is not
/// read; it is the one the cursor will be used with.
#[verifier::external_body]
fn line_tokenizer<'a>(syntax: &SyntaxReference, _syntaxes: &SyntaxSet, theme: &'a Theme) -> (r:
    HighlightLines<'a>)
    requires
        syntaxes_sound(*_syntaxes),
        syntax_of(*_syntaxes, *syntax),
    ensures
        cursor_in(r, *_syntaxes),
{
    HighlightLines::new(syntax, theme)
}

/// Relies on `syntect::easy::HighlightLines::highlight_line`: the styled regions of one
/// line, left to right, as the cursor's state after the lines before it gives them, whose
/// texts joined make the line; syntect's error where the syntax definition fails on the line.
/// It panics where a pattern does not compile or a context does not resolve in `syntaxes`,
/// which `requires` leaves out: the set is sound and the cursor's syntax is one of it.
#[verifier::external_body]
fn tokenize_line(
    highlighter: &mut HighlightLines,
    line: &str,
    syntaxes: &SyntaxSet,
) -> (r: Result<Vec<(ThemeStyle, String)>, syntect::Error>)
    requires
        syntaxes_sound(*syntaxes),
        cursor_in(*old(highlighter), *syntaxes),
    ensures
        cursor_in(*final(highlighter), *syntaxes),
        r matches Ok(v) ==> regions_text(regions_view(v@)) == line@,
{
    let regions = highlighter.highlight_line(line, syntaxes)?;
    Ok(regions.into_iter().map(|(s, text)| {
        let (f, b) = (s.foreground, s.background);
        let foreground = ThemeColor { r: f.r, g: f.g, b: f.b, a: f.a };
        let background = ThemeColor { r: b.r, g: b.g, b: b.b, a: b.a };
        let font_style = FontStyle { bits: s.font_style.bits() };
        (ThemeStyle { foreground, background, font_style }, text.to_string())
    }).collect())
}

/// The texts of the regions, joined.
pub open spec fn regions_text(regions: Seq<(ThemeStyle, Seq<char>)>) -> Seq<char>
    decreases regions.len(),
{
    if regions.len() == 0 {
        seq![]
    } else {
        regions_text(regions.drop_last()) + regions.last().1
    }
}

/// A tokenizer cursor over one document, with the syntax set its syntax came from.
pub struct LineCursor<'a> {
    lines: HighlightLines<'a>,
    syntaxes: &'a SyntaxSet,
    /// The regions the tokenizer gave for the last line.
    regions: Ghost<Seq<(ThemeStyle, Seq<char>)>>,
}

impl<'a> LineCursor<'a> {
    /// Whether the cursor can tokenize without a panic: its set is sound and holds its syntax.
    pub closed spec fn sound(&self) -> bool {
        syntaxes_sound(*self.syntaxes) && cursor_in(self.lines, *self.syntaxes)
    }

    /// A cursor at the start of a document in `syntax`, styling with `theme`.
    pub fn new(syntax: &StoreSyntax<'a>, theme: &'a Theme) -> (r: LineCursor<'a>)
        requires
            syntax.sound(),
        ensures
            r.sound(),
    {
        let syntaxes = syntax.syntaxes();
        let ghost none: Seq<(ThemeStyle, Seq<char>)> = seq![];
        LineCursor {
            lines: line_tokenizer(syntax.syntax(), syntaxes, theme),
            syntaxes,
            regions: Ghost(none),
        }
    }

    /// The regions the tokenizer gave for the last line it tokenized.
    pub closed spec fn last_regions(&self) -> Seq<(ThemeStyle, Seq<char>)> {
        self.regions@
    }

    /// The styled regions of the next line, whose texts joined make `line`.
    pub fn tokenize(&mut self, line: &str) -> (r: Result<Vec<(ThemeStyle, String)>, Error>)
        requires
            old(self).sound(),
        ensures
            final(self).sound(),
            r matches Ok(v) ==> final(self).last_regions() == regions_view(v@),
            r matches Ok(v) ==> regions_text(regions_view(v@)) == line@,
            r matches Err(e) ==> e is Highlight,
    {
        match tokenize_line(&mut self.lines, line, self.syntaxes) {
            Ok(v) => {
                self.regions = Ghost(regions_view(v@));
                Ok(v)
            },
            Err(e) => Err(Error::Highlight(e)),
        }
    }
}

/// The background a theme's settings give, if any.
pub uninterp spec fn theme_background_of(theme: Theme) -> Option<ThemeColor>;

/// The line-number color a theme's settings give, if any.
pub uninterp spec fn theme_gutter_of(theme: Theme) -> Option<ThemeColor>;

/// Relies on syntect's `Theme::settings.background`: the color the theme paints behind text.
#[verifier::external_body]
fn theme_background(theme: &Theme) -> (r: Option<ThemeColor>)
    ensures
        r == theme_background_of(*theme),
{
    theme.settings.background.map(|c| ThemeColor { r: c.r, g: c.g, b: c.b, a: c.a })
}

/// Relies on syntect's `Theme::settings.gutter_foreground`: the theme's line-number color.
#[verifier::external_body]
fn theme_gutter_foreground(theme: &Theme) -> (r: Option<ThemeColor>)
    ensures
        r == theme_gutter_of(*theme),
{
    theme.settings.gutter_foreground.map(|c| ThemeColor { r: c.r, g: c.g, b: c.b, a: c.a })
}

/// Builds the gutter of a line in place of the built-in line-number layout.
pub trait GutterTemplate {
    /// The gutter spans of the line with the given 1-based number, given the style
    /// computed for line numbers.
    fn gutter(&self, line_number: usize, style: Style) -> Vec<Span>;
}

/// Turns tokenized lines into styled lines for a terminal.
///
/// Line numbers are 0-based wherever they are passed in, and in highlight ranges; the
/// built-in gutter shows them 1-based.
#[derive(Clone)]
pub struct Highlighter {
    pub theme: Theme,
    /// The theme's background, as the theme defines it.
    pub theme_background: Option<ThemeColor>,
    /// The theme's line-number color, as the theme defines it.
    pub theme_gutter_foreground: Option<ThemeColor>,
    pub override_background: Option<Color>,
    pub line_number_style: Option<Style>,
    pub line_number_separator_style: Option<Style>,
    pub gutter_template: Option<Arc<dyn GutterTemplate>>,
    pub line_numbers: bool,
    pub line_number_padding: usize,
    pub line_number_separator: String,
    pub highlight_ranges: Vec<Range<usize>>,
    pub highlight_style: Style,
    pub converter: Converter,
}

/// The text and style of each tokenized region.
pub open spec fn regions_view(regions: Seq<(ThemeStyle, String)>) -> Seq<(ThemeStyle, Seq<char>)> {
    regions.map_values(|p: (ThemeStyle, String)| (p.0, p.1@))
}

impl Highlighter {
    /// The cached theme colors are the theme's own. Construction establishes it and every
    /// builder keeps it.
    pub open spec fn wf(&self) -> bool {
        &&& self.theme_background == theme_background_of(self.theme)
        &&& self.theme_gutter_foreground == theme_gutter_of(self.theme)
    }

    pub open spec fn profile(&self) -> ColorTier {
        self.converter.profile
    }

    /// The background of the document: the override where one is set, else the theme's.
    pub open spec fn spec_background(&self) -> Option<Color> {
        match self.override_background {
            Some(bg) => Some(bg),
            None => match self.theme_background {
                Some(c) => theme_color_for(c, self.profile()),
                None => None,
            },
        }
    }

    /// The style of line numbers: the one configured, else the theme's gutter color (dark
    /// gray where it has none) over the document background.
    pub open spec fn spec_line_number_style(&self) -> Style {
        match self.line_number_style {
            Some(s) => s,
            None => {
                let fg = match self.theme_gutter_foreground {
                    Some(c) => theme_color_for(c, self.profile()),
                    None => None,
                };
                let s0 = match fg {
                    Some(f) => Style { fg: Some(f), ..Style::spec_new() },
                    None => Style { fg: Some(Color::DarkGray), ..Style::spec_new() },
                };
                let s1 = match self.spec_background() {
                    Some(bg) => Style { bg: Some(bg), ..s0 },
                    None => s0,
                };
                style_for_tier(s1, self.profile())
            },
        }
    }

    /// Whether the 0-based line `n` lies in one of the highlight ranges.
    pub open spec fn is_highlighted(&self, n: int) -> bool {
        exists|i: int|
            0 <= i < self.highlight_ranges@.len() && #[trigger] self.highlight_ranges@[i].start <= n
                < self.highlight_ranges@[i].end
    }

    /// The style of a token: its theme style for this terminal, with the background
    /// override in place of its own background.
    pub open spec fn token_style(&self, st: ThemeStyle) -> Style {
        let s = theme_style_for(st, self.profile());
        match self.override_background {
            Some(bg) => Style { bg: Some(bg), ..s },
            None => s,
        }
    }

    /// The style of a token on a highlighted or plain line.
    pub open spec fn region_style(&self, st: ThemeStyle, highlighted: bool) -> Style {
        if highlighted {
            self.token_style(st).spec_patch(self.highlight_style)
        } else {
            self.token_style(st)
        }
    }

    /// The spans of a line's regions: each text without its newline, empty ones left out.
    pub open spec fn content_spans(
        &self,
        regions: Seq<(ThemeStyle, Seq<char>)>,
        highlighted: bool,
    ) -> Seq<(Seq<char>, Style)>
        decreases regions.len(),
    {
        if regions.len() == 0 {
            seq![]
        } else {
            let prev = self.content_spans(regions.drop_last(), highlighted);
            let text = strip_newline(regions.last().1);
            if text.len() == 0 {
                prev
            } else {
                prev.push((text, self.region_style(regions.last().0, highlighted)))
            }
        }
    }

    /// The built-in gutter of the 0-based line `n`: its 1-based number right-aligned in the
    /// padding, a space, the separator, a space.
    pub open spec fn default_gutter(&self, n: nat, style: Style) -> Seq<(Seq<char>, Style)> {
        let digits = decimal(n + 1);
        let pad: nat = if self.line_number_padding >= digits.len() {
            (self.line_number_padding - digits.len()) as nat
        } else {
            0
        };
        let sep_style = match self.line_number_separator_style {
            Some(s) => s,
            None => style,
        };
        seq![
            (spaces(pad), style),
            (digits, style),
            (seq![' '], style),
            (self.line_number_separator@, sep_style),
            (seq![' '], style),
        ]
    }

    /// The gutter of line `n` where the configuration fixes it: none without line numbers,
    /// the built-in one without a template.
    pub open spec fn known_gutter(&self, n: nat, style: Style) -> Option<Seq<(Seq<char>, Style)>> {
        if !self.line_numbers {
            Some(seq![])
        } else if self.gutter_template is Some {
            None
        } else {
            Some(self.default_gutter(n, style))
        }
    }

    /// The style under a whole line: the highlight style on a highlighted line, and the
    /// document background.
    pub open spec fn line_style(&self, highlighted: bool) -> Style {
        let base = match self.spec_background() {
            Some(bg) => Style { bg: Some(bg), ..Style::spec_new() },
            None => Style::spec_new(),
        };
        if highlighted {
            base.spec_patch(self.highlight_style)
        } else {
            base
        }
    }

    /// `line` is line `n` composed of `regions`: gutter spans, then one span per non-empty
    /// region, over the line style.
    pub open spec fn composes(
        &self,
        regions: Seq<(ThemeStyle, Seq<char>)>,
        n: nat,
        style: Style,
        line: (Seq<(Seq<char>, Style)>, Style),
    ) -> bool {
        let highlighted = self.is_highlighted(n as int);
        let content = self.content_spans(regions, highlighted);
        let spans = line.0;
        &&& line.1 == self.line_style(highlighted)
        &&& spans.len() >= content.len()
        &&& spans.subrange(spans.len() - content.len(), spans.len() as int) == content
        &&& (self.known_gutter(n, style) matches Some(g) ==> spans == g + content)
    }

    /// A highlighter with the given theme, for a true-color terminal, with the built-in
    /// gutter (padding 4, a vertical bar), no override and no highlight ranges; highlighted
    /// lines get a yellow background.
    pub fn new(theme: Theme) -> (r: Highlighter)
        ensures
            r.wf(),
            r.theme == theme,
            r.theme_background == theme_background_of(theme),
            r.theme_gutter_foreground == theme_gutter_of(theme),
            r.override_background is None,
            r.line_number_style is None,
            r.line_number_separator_style is None,
            r.gutter_template is None,
            r.line_numbers,
            r.line_number_padding == 4,
            r.line_number_separator@ == seq!['\u{2502}'],
            r.highlight_ranges@.len() == 0,
            r.highlight_style == (Style { bg: Some(Color::Yellow), ..Style::spec_new() }),
            r.profile() == ColorTier::TrueColor,
    {
        let theme_bg = theme_background(&theme);
        let gutter_fg = theme_gutter_foreground(&theme);
        proof {
            reveal_strlit("\u{2502}");
        }
        Highlighter {
            theme,
            theme_background: theme_bg,
            theme_gutter_foreground: gutter_fg,
            override_background: None,
            line_number_style: None,
            line_number_separator_style: None,
            gutter_template: None,
            line_numbers: true,
            line_number_padding: 4,
            line_number_separator: String::from_str("\u{2502}"),
            highlight_ranges: Vec::new(),
            highlight_style: Style::new().bg(Color::Yellow),
            converter: Converter::new(),
        }
    }

    /// The document background: the override where one is set, else the theme's background
    /// as this terminal shows it.
    pub fn get_background(&self) -> (r: Option<Color>)
        ensures
            r == self.spec_background(),
    {
        match self.override_background {
            Some(bg) => Some(bg),
            None => match self.theme_background {
                Some(c) => self.converter.syntect_color_to_tui(c),
                None => None,
            },
        }
    }

    /// The style for line numbers: the configured one, else the theme's gutter color (dark
    /// gray where it has none) over the document background.
    pub fn calculate_line_number_style(&self) -> (r: Style)
        ensures
            r == self.spec_line_number_style(),
    {
        if let Some(style) = self.line_number_style {
            return style;
        }
        let fg = match self.theme_gutter_foreground {
            Some(c) => self.converter.syntect_color_to_tui(c),
            None => None,
        };
        let mut style = match fg {
            Some(f) => Style::new().fg(f),
            None => Style::new().fg(Color::DarkGray),
        };
        if let Some(bg) = self.get_background() {
            style = style.bg(bg);
        }
        adapt_style(style, self.converter.profile)
    }

    /// Whether the 0-based line `n` lies in a highlight range.
    fn highlights(&self, n: usize) -> (r: bool)
        ensures
            r == self.is_highlighted(n as int),
    {
        let mut i: usize = 0;
        while i < self.highlight_ranges.len()
            invariant
                i <= self.highlight_ranges@.len(),
                forall|j: int|
                    0 <= j < i ==> !(#[trigger] self.highlight_ranges@[j].start <= n
                        < self.highlight_ranges@[j].end),
            decreases self.highlight_ranges@.len() - i,
        {
            let range = &self.highlight_ranges[i];
            if range.start <= n && n < range.end {
                return true;
            }
            i = i + 1;
        }
        false
    }

    /// The style of one token, with the background override in place of its own background.
    fn syntect_style_to_tui(&self, style: ThemeStyle) -> (r: Style)
        ensures
            r == self.token_style(style),
    {
        let tui_style = self.converter.syntect_style_to_tui(style);
        match self.override_background {
            Some(bg) => tui_style.bg(bg),
            None => tui_style,
        }
    }

    /// The gutter spans of the 0-based line `line_number`.
    fn get_initial_spans(&self, line_number: usize, line_number_style: Style) -> (r: Vec<Span>)
        requires
            line_number < usize::MAX,
        ensures
            self.known_gutter(line_number as nat, line_number_style) matches Some(g) ==> spans_view(
                r@,
            ) == g,
    {
        if !self.line_numbers {
            return Vec::new();
        }
        let number = line_number + 1;
        if let Some(template) = &self.gutter_template {
            return template.gutter(number, line_number_style);
        }
        let digits = decimal_string(number);
        let width = digits.as_str().unicode_len();
        let pad = self.line_number_padding.saturating_sub(width);
        let separator_style = match self.line_number_separator_style {
            Some(s) => s,
            None => line_number_style,
        };
        proof {
            reveal_strlit(" ");
        }
        let spans = vec![
            Span::styled(space_string(pad), line_number_style),
            Span::styled(digits, line_number_style),
            Span::styled(String::from_str(" "), line_number_style),
            Span::styled(self.line_number_separator.clone(), separator_style),
            Span::styled(String::from_str(" "), line_number_style),
        ];
        let ghost g = self.default_gutter(line_number as nat, line_number_style);
        assert(spans@.len() == 5);
        assert(spans_view(spans@)[0] == g[0]);
        assert(spans_view(spans@)[1] == g[1]);
        assert(spans_view(spans@)[2] == g[2]);
        assert(spans_view(spans@)[3] == g[3]);
        assert(spans_view(spans@)[4] == g[4]);
        assert(spans_view(spans@) =~= g);
        spans
    }

    /// Composes line `line_number` (0-based) from its tokenized regions.
    pub fn to_line(
        &self,
        regions: &Vec<(ThemeStyle, String)>,
        line_number: usize,
        line_number_style: Style,
    ) -> (r: Line)
        requires
            line_number < usize::MAX,
        ensures
            self.composes(regions_view(regions@), line_number as nat, line_number_style, r@),
    {
        let mut spans = self.get_initial_spans(line_number, line_number_style);
        let ghost gutter = spans_view(spans@);
        let ghost known = self.known_gutter(line_number as nat, line_number_style);
        let highlight_row = self.highlights(line_number);
        let ghost rv = regions_view(regions@);
        let mut i: usize = 0;
        while i < regions.len()
            invariant
                i <= regions@.len(),
                rv == regions_view(regions@),
                highlight_row == self.is_highlighted(line_number as int),
                spans_view(spans@) == gutter + self.content_spans(rv.take(i as int), highlight_row),
                known matches Some(g) ==> gutter == g,
            decreases regions@.len() - i,
        {
            let text = without_newline(regions[i].1.as_str());
            let ghost before = spans@;
            if text.as_str().unicode_len() > 0 {
                let mut style = self.syntect_style_to_tui(regions[i].0);
                if highlight_row {
                    style = style.patch(self.highlight_style);
                }
                spans.push(Span::styled(text, style));
                assert(spans_view(spans@) =~= spans_view(before).push(spans@.last()@));
            } else {
                assert(spans@ == before);
            }
            assert(rv.take(i + 1).drop_last() =~= rv.take(i as int));
            i = i + 1;
        }
        assert(rv.take(i as int) =~= rv);
        let line = self.apply_background(Line { spans, style: Style::new() });
        let r = if highlight_row {
            line.patch_style(self.highlight_style)
        } else {
            line
        };
        let ghost content = self.content_spans(rv, highlight_row);
        let ghost sv = r@.0;
        assert(sv.subrange(sv.len() - content.len(), sv.len() as int) =~= content);
        r
    }

    /// Gives the line the document background.
    fn apply_background(&self, line: Line) -> (r: Line)
        ensures
            r.spans@ == line.spans@,
            r.style == (match self.spec_background() {
                Some(bg) => Style { bg: Some(bg), ..line.style },
                None => line.style,
            }),
    {
        match self.get_background() {
            Some(bg) => line.bg(bg),
            None => line,
        }
    }
}

/// A highlighted document: its lines, and the background to paint where no span sets one.
pub struct HighlightedText {
    pub lines: Vec<Line>,
    pub background: Option<Color>,
}

impl HighlightedText {
    pub open spec fn lines_view(&self) -> Seq<(Seq<(Seq<char>, Style)>, Style)> {
        self.lines@.map_values(|l: Line| l@)
    }
}

impl Highlighter {
    /// `text` is the document of the given lines: line `i` is line `i` composed of regions
    /// whose texts join to source line `i` ending in a newline, over this highlighter's
    /// background.
    pub open spec fn document(&self, text: HighlightedText, source: Seq<Seq<char>>) -> bool {
        &&& text.lines@.len() == source.len()
        &&& text.background == self.spec_background()
        &&& forall|i: int|
            0 <= i < source.len() ==> self.is_line_of(
                with_newline(source[i]),
                i as nat,
                self.spec_line_number_style(),
                #[trigger] text.lines@[i]@,
            )
    }

    /// `line` is line `n` composed of the regions the tokenizer made of `text`.
    pub open spec fn is_line_of(
        &self,
        text: Seq<char>,
        n: nat,
        style: Style,
        line: (Seq<(Seq<char>, Style)>, Style),
    ) -> bool {
        exists|regions: Seq<(ThemeStyle, Seq<char>)>|
            regions_text(regions) == text && #[trigger] self.composes(regions, n, style, line)
    }

    /// A highlighter with the given theme, for a terminal of the given color tier.
    pub fn with_profile(theme: Theme, profile: ColorTier) -> (r: Highlighter)
        ensures
            r.wf(),
            r.theme == theme,
            r.theme_background == theme_background_of(theme),
            r.theme_gutter_foreground == theme_gutter_of(theme),
            r.line_number_separator@ == seq!['\u{2502}'],
            r.override_background is None,
            r.line_number_style is None,
            r.line_number_separator_style is None,
            r.gutter_template is None,
            r.line_numbers,
            r.line_number_padding == 4,
            r.highlight_ranges@.len() == 0,
            r.highlight_style == style_for_tier(
                Style { bg: Some(Color::Yellow), ..Style::spec_new() },
                profile,
            ),
            r.profile() == profile,
    {
        let mut this = Highlighter::new(theme);
        this.converter = Converter::with_profile(profile);
        this.highlight_style = adapt_style(this.highlight_style, profile);
        this
    }

    /// Paints every line, and every token, on `background` in place of the theme's
    /// background; `Color::Reset` leaves the terminal's own background. A color the
    /// terminal cannot show becomes `Color::Reset`.
    pub fn override_background(self, background: Color) -> (r: Highlighter)
        ensures
            r == (Highlighter {
                override_background: Some(
                    match color_for_tier(background, self.profile()) {
                        Some(c) => c,
                        None => Color::Reset,
                    },
                ),
                ..self
            }),
    {
        let adapted = match adapt_color(background, self.converter.profile) {
            Some(c) => c,
            None => Color::Reset,
        };
        Highlighter { override_background: Some(adapted), ..self }
    }

    /// Shows or hides the line-number gutter.
    pub fn line_numbers(self, line_numbers: bool) -> (r: Highlighter)
        ensures
            r == (Highlighter { line_numbers, ..self }),
    {
        Highlighter { line_numbers, ..self }
    }

    /// Sets the width of the line-number gutter before its separator.
    pub fn line_number_padding(self, padding: usize) -> (r: Highlighter)
        ensures
            r == (Highlighter { line_number_padding: padding, ..self }),
    {
        Highlighter { line_number_padding: padding, ..self }
    }

    /// Sets the style of line numbers, its colors as the terminal shows them.
    pub fn line_number_style(self, style: Style) -> (r: Highlighter)
        ensures
            r == (Highlighter {
                line_number_style: Some(style_for_tier(style, self.profile())),
                ..self
            }),
    {
        let adapted = adapt_style(style, self.converter.profile);
        Highlighter { line_number_style: Some(adapted), ..self }
    }

    /// Sets the style of the gutter separator, its colors as the terminal shows them.
    pub fn line_number_separator_style(self, style: Style) -> (r: Highlighter)
        ensures
            r == (Highlighter {
                line_number_separator_style: Some(style_for_tier(style, self.profile())),
                ..self
            }),
    {
        let adapted = adapt_style(style, self.converter.profile);
        Highlighter { line_number_separator_style: Some(adapted), ..self }
    }

    /// Sets the text between line numbers and code.
    pub fn line_number_separator(self, separator: String) -> (r: Highlighter)
        ensures
            r == (Highlighter { line_number_separator: separator, ..self }),
    {
        Highlighter { line_number_separator: separator, ..self }
    }

    /// Adds a range of 0-based lines to emphasize with the highlight style.
    pub fn highlight_range(self, range: Range<usize>) -> (r: Highlighter)
        ensures
            r.highlight_ranges@ == self.highlight_ranges@.push(range),
            self.wf() ==> r.wf(),
            r.theme == self.theme,
            r.highlight_style == self.highlight_style,
            r.override_background == self.override_background,
            r.converter == self.converter,
            r.theme_background == self.theme_background,
            r.line_numbers == self.line_numbers,
            r.gutter_template == self.gutter_template,
            r.line_number_padding == self.line_number_padding,
            r.line_number_separator == self.line_number_separator,
            r.line_number_style == self.line_number_style,
            r.line_number_separator_style == self.line_number_separator_style,
            r.theme_gutter_foreground == self.theme_gutter_foreground,
    {
        let mut this = self;
        this.highlight_ranges.push(range);
        this
    }

    /// Sets the style laid over highlighted lines, its colors as the terminal shows them.
    pub fn highlight_style(self, style: Style) -> (r: Highlighter)
        ensures
            r == (Highlighter { highlight_style: style_for_tier(style, self.profile()), ..self }),
    {
        let adapted = adapt_style(style, self.converter.profile);
        Highlighter { highlight_style: adapted, ..self }
    }

    /// Builds each line's gutter with `template`; hiding line numbers still hides it.
    pub fn gutter_template(self, template: Option<Arc<dyn GutterTemplate>>) -> (r: Highlighter)
        ensures
            r == (Highlighter { gutter_template: template, ..self }),
    {
        Highlighter { gutter_template: template, ..self }
    }

    /// Highlights one line, numbered `line_number` (0-based), advancing the tokenizer; the
    /// tokenizer is given the line ending in a newline.
    pub fn highlight_line(
        &self,
        line: &str,
        cursor: &mut LineCursor,
        line_number: usize,
        line_number_style: Style,
    ) -> (r: Result<Line, Error>)
        requires
            line_number < usize::MAX,
            old(cursor).sound(),
        ensures
            final(cursor).sound(),
            r matches Ok(l) ==> self.composes(
                final(cursor).last_regions(),
                line_number as nat,
                line_number_style,
                l@,
            ) && regions_text(final(cursor).last_regions()) == with_newline(line@),
            r matches Ok(l) ==> self.is_line_of(
                with_newline(line@),
                line_number as nat,
                line_number_style,
                l@,
            ),
            r matches Err(e) ==> e is Highlight,
    {
        let line = ending_in_newline(line);
        match cursor.tokenize(line.as_str()) {
            Ok(regions) => {
                Ok(self.to_line(&regions, line_number, line_number_style))
            },
            Err(e) => Err(e),
        }
    }

    /// Highlights a document given as lines, numbered from 0. The first line the tokenizer
    /// rejects fails the whole document.
    pub fn highlight_lines<T: IntoLines>(&self, source: T, syntax: &StoreSyntax) -> (r: Result<
        HighlightedText,
        Error,
    >)
        requires
            syntax.sound(),
        ensures
            r matches Ok(text) ==> self.document(text, source.line_seq()),
            r matches Err(e) ==> e is Highlight,
    {
        let lines = source.into_lines();
        let mut cursor = LineCursor::new(syntax, &self.theme);
        match self.highlight_all(&lines, &mut cursor) {
            Ok(out) => Ok(HighlightedText { lines: out, background: self.get_background() }),
            Err(e) => Err(e),
        }
    }

    /// Highlights the lines read from a stream, numbered from 0, where `read_error` is the
    /// error that stopped the reading after them, if any. A read error fails the whole
    /// document, before any line is tokenized; otherwise the first line the tokenizer
    /// rejects does.
    pub fn highlight_reader(
        &self,
        lines: Vec<String>,
        read_error: Option<std::io::Error>,
        syntax: &StoreSyntax,
    ) -> (r: Result<HighlightedText, Error>)
        requires
            syntax.sound(),
        ensures
            read_error is Some ==> (r matches Err(Error::Read(e)) && read_error == Some(e)),
            read_error is None ==> (r matches Ok(text) ==> self.document(
                text,
                strings_view(lines@),
            )),
            read_error is None ==> (r matches Err(e) ==> e is Highlight),
    {
        if let Some(e) = read_error {
            return Err(Error::Read(e));
        }
        let mut cursor = LineCursor::new(syntax, &self.theme);
        match self.highlight_all(&lines, &mut cursor) {
            Err(e) => Err(e),
            Ok(out) => Ok(HighlightedText { lines: out, background: self.get_background() }),
        }
    }

    /// Highlights each line in turn with one tokenizer cursor.
    fn highlight_all(&self, lines: &Vec<String>, cursor: &mut LineCursor) -> (r: Result<
        Vec<Line>,
        Error,
    >)
        requires
            old(cursor).sound(),
        ensures
            r matches Ok(out) ==> self.document(
                HighlightedText { lines: out, background: self.spec_background() },
                strings_view(lines@),
            ),
            r matches Err(e) ==> e is Highlight,
    {
        let line_number_style = self.calculate_line_number_style();
        let mut out: Vec<Line> = Vec::new();
        let mut i: usize = 0;
        while i < lines.len()
            invariant
                i <= lines@.len(),
                line_number_style == self.spec_line_number_style(),
                cursor.sound(),
                out@.len() == i,
                forall|j: int|
                    0 <= j < i ==> self.is_line_of(
                        with_newline(lines@[j]@),
                        j as nat,
                        line_number_style,
                        #[trigger] out@[j]@,
                    ),
            decreases lines@.len() - i,
        {
            match self.highlight_line(lines[i].as_str(), cursor, i, line_number_style) {
                Ok(line) => {
                    out.push(line);
                },
                Err(e) => {
                    return Err(e);
                },
            }
            i = i + 1;
        }
        Ok(out)
    }
}

/// Composing the same regions as the same line twice gives the same line, wherever the
/// configuration fixes the gutter.
pub proof fn composition_is_deterministic(
    h: Highlighter,
    regions: Seq<(ThemeStyle, Seq<char>)>,
    n: nat,
    style: Style,
    a: (Seq<(Seq<char>, Style)>, Style),
    b: (Seq<(Seq<char>, Style)>, Style),
)
    requires
        h.known_gutter(n, style) is Some,
        h.composes(regions, n, style, a),
        h.composes(regions, n, style, b),
    ensures
        a == b,
{
}

/// Without line numbers a line holds its token spans alone: the first span is the first
/// token's.
pub proof fn no_line_numbers_no_gutter(
    h: Highlighter,
    regions: Seq<(ThemeStyle, Seq<char>)>,
    n: nat,
    style: Style,
    line: (Seq<(Seq<char>, Style)>, Style),
)
    requires
        !h.line_numbers,
        h.composes(regions, n, style, line),
    ensures
        line.0 == h.content_spans(regions, h.is_highlighted(n as int)),
{
    assert(seq![] + h.content_spans(regions, h.is_highlighted(n as int)) =~= h.content_spans(
        regions,
        h.is_highlighted(n as int),
    ));
}

proof fn lemma_content_background(
    h: Highlighter,
    regions: Seq<(ThemeStyle, Seq<char>)>,
    highlighted: bool,
    bg: Color,
)
    requires
        h.override_background == Some(bg),
        !(highlighted && h.highlight_style.bg is Some),
    ensures
        forall|i: int|
            0 <= i < h.content_spans(regions, highlighted).len() ==> (#[trigger] h.content_spans(
                regions,
                highlighted,
            )[i]).1.bg == Some(bg),
    decreases regions.len(),
{
    if regions.len() > 0 {
        lemma_content_background(h, regions.drop_last(), highlighted, bg);
    }
}

/// A background override, `Color::Reset` included, replaces the theme's background on the
/// whole line and on every token span, whatever background the tokens had; on a
/// highlighted line only a background of the highlight style is laid over it.
pub proof fn override_background_everywhere(
    h: Highlighter,
    regions: Seq<(ThemeStyle, Seq<char>)>,
    n: nat,
    style: Style,
    line: (Seq<(Seq<char>, Style)>, Style),
    bg: Color,
)
    requires
        h.override_background == Some(bg),
        h.composes(regions, n, style, line),
    ensures
        h.spec_background() == Some(bg),
        !(h.is_highlighted(n as int) && h.highlight_style.bg is Some) ==> line.1.bg == Some(bg),
        !(h.is_highlighted(n as int) && h.highlight_style.bg is Some) ==> forall|i: int|
            line.0.len() - h.content_spans(regions, h.is_highlighted(n as int)).len() <= i
                < line.0.len() ==> (#[trigger] line.0[i]).1.bg == Some(bg),
{
    let highlighted = h.is_highlighted(n as int);
    let content = h.content_spans(regions, highlighted);
    if !(highlighted && h.highlight_style.bg is Some) {
        lemma_content_background(h, regions, highlighted, bg);
        assert forall|i: int|
            line.0.len() - content.len() <= i < line.0.len() implies (#[trigger] line.0[i]).1.bg
            == Some(bg) by {
            let k = i - (line.0.len() - content.len());
            assert(line.0.subrange(line.0.len() - content.len(), line.0.len() as int)[k]
                == line.0[i]);
        }
    }
}

/// On a highlighted line the highlight style is laid over the whole line last: its
/// background, where it sets one, is the line's background.
pub proof fn highlight_overlays_whole_line(
    h: Highlighter,
    regions: Seq<(ThemeStyle, Seq<char>)>,
    n: nat,
    style: Style,
    line: (Seq<(Seq<char>, Style)>, Style),
)
    requires
        h.is_highlighted(n as int),
        h.highlight_style.bg is Some,
        h.composes(regions, n, style, line),
    ensures
        line.1.bg == h.highlight_style.bg,
{
}

/// The built-in gutter right-aligns the 1-based line number in the padding, then puts a
/// space, the separator and a space.
pub proof fn gutter_right_aligns_number(h: Highlighter, n: nat, style: Style)
    requires
        h.line_number_padding >= decimal(n + 1).len(),
    ensures
        h.default_gutter(n, style)[0].0.len() + h.default_gutter(n, style)[1].0.len()
            == h.line_number_padding,
        h.default_gutter(n, style)[1].0 == decimal(n + 1),
        h.default_gutter(n, style)[2].0 == seq![' '],
        h.default_gutter(n, style)[3].0 == h.line_number_separator@,
        h.default_gutter(n, style)[4].0 == seq![' '],
{
}

} // verus!
