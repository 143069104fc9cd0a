use syntect::highlighting::ThemeSet;
use tui_syntax_highlight::convert::{adapt_color, adapt_style};
use tui_syntax_highlight::text::{decimal_string, ending_in_newline, space_string, without_newline};
use tui_syntax_highlight::{
    add_syntax_from_folder, add_theme_from_folder, AssetError, Color, ColorTier, Converter, Error,
    FontStyle, Highlighter, IntoLines, Modifier, Style, ThemeColor, ThemeStyle,
};

const TIERS: [ColorTier; 4] =
    [ColorTier::NoColor, ColorTier::Ansi16, ColorTier::Ansi256, ColorTier::TrueColor];

fn theme() -> syntect::highlighting::Theme {
    ThemeSet::load_defaults().themes["base16-ocean.dark"].clone()
}

fn rgb(r: u8, g: u8, b: u8) -> ThemeColor {
    ThemeColor { r, g, b, a: 0xff }
}

fn token(fg: ThemeColor, bg: ThemeColor, bits: u8) -> ThemeStyle {
    ThemeStyle { foreground: fg, background: bg, font_style: FontStyle { bits } }
}

#[test]
fn standard_colors_same_on_every_tier() {
    for i in 0..16u8 {
        let c = ThemeColor { r: i, g: 9, b: 9, a: 0 };
        let first = Converter::with_profile(ColorTier::NoColor).syntect_color_to_tui(c);
        for tier in TIERS {
            let conv = Converter::with_profile(tier);
            assert_eq!(conv.syntect_color_to_tui(c), first);
            assert_eq!(conv.syntect_color_to_tui(c), conv.syntect_color_to_tui(c));
        }
    }
    let conv = Converter::new();
    assert_eq!(conv.syntect_color_to_tui(ThemeColor { r: 0, g: 0, b: 0, a: 0 }), Some(Color::Black));
    assert_eq!(conv.syntect_color_to_tui(ThemeColor { r: 7, g: 0, b: 0, a: 0 }), Some(Color::Gray));
    assert_eq!(
        conv.syntect_color_to_tui(ThemeColor { r: 8, g: 0, b: 0, a: 0 }),
        Some(Color::DarkGray)
    );
    assert_eq!(conv.syntect_color_to_tui(ThemeColor { r: 15, g: 0, b: 0, a: 0 }), Some(Color::White));
    assert_eq!(
        conv.syntect_color_to_tui(ThemeColor { r: 200, g: 0, b: 0, a: 0 }),
        Some(Color::Indexed(200))
    );
}

#[test]
fn inherit_color_is_none_on_every_tier() {
    for tier in TIERS {
        let c = ThemeColor { r: 10, g: 20, b: 30, a: 1 };
        assert_eq!(Converter::with_profile(tier).syntect_color_to_tui(c), None);
    }
}

#[test]
fn true_color_keeps_channels() {
    let conv = Converter::new();
    assert_eq!(conv.syntect_color_to_tui(rgb(0x12, 0x34, 0x56)), Some(Color::Rgb(0x12, 0x34, 0x56)));
    assert_eq!(
        conv.syntect_color_to_tui(ThemeColor { r: 1, g: 2, b: 3, a: 2 }),
        Some(Color::Rgb(1, 2, 3))
    );
}

#[test]
fn no_color_drops_rgb() {
    let conv = Converter::with_profile(ColorTier::NoColor);
    assert_eq!(conv.syntect_color_to_tui(rgb(0x12, 0x34, 0x56)), None);
    assert_eq!(adapt_color(Color::Red, ColorTier::NoColor), None);
}

#[test]
fn downsampled_colors_fit_the_tier() {
    let c = rgb(0xff, 0x00, 0x00);
    match Converter::with_profile(ColorTier::Ansi256).syntect_color_to_tui(c) {
        Some(Color::Indexed(_)) => {}
        other => panic!("expected a palette entry, got {:?}", other),
    }
    let sixteen = Converter::with_profile(ColorTier::Ansi16).syntect_color_to_tui(c);
    assert!(matches!(
        sixteen,
        Some(Color::Red | Color::LightRed | Color::Black | Color::White | Color::Gray)
            | Some(Color::DarkGray | Color::Yellow | Color::LightYellow | Color::Magenta)
            | Some(Color::LightMagenta)
    ));
    assert_eq!(adapt_color(Color::Indexed(196), ColorTier::Ansi256), Some(Color::Indexed(196)));
    assert_eq!(adapt_color(Color::Blue, ColorTier::Ansi16), Some(Color::Blue));
    assert_eq!(adapt_color(Color::Reset, ColorTier::Ansi16), Some(Color::Reset));
    assert!(!matches!(adapt_color(Color::Rgb(1, 2, 3), ColorTier::Ansi16), Some(Color::Rgb(..))));
}

#[test]
fn style_conversion_maps_font_flags() {
    let conv = Converter::new();
    let s = conv.syntect_style_to_tui(token(rgb(1, 2, 3), rgb(4, 5, 6), 1 | 2 | 4));
    assert_eq!(s.fg, Some(Color::Rgb(1, 2, 3)));
    assert_eq!(s.bg, Some(Color::Rgb(4, 5, 6)));
    assert_eq!(s.add_modifier, Modifier { bits: 1 | 4 | 8 });
    let plain = conv.syntect_style_to_tui(token(rgb(1, 2, 3), ThemeColor { r: 0, g: 0, b: 0, a: 1 }, 0));
    assert_eq!(plain.bg, None);
    assert_eq!(plain.add_modifier, Modifier { bits: 0 });
    let italic = conv.syntect_style_to_tui(token(rgb(1, 2, 3), rgb(1, 2, 3), 4));
    assert_eq!(italic.add_modifier, Modifier { bits: 4 });
}

#[test]
fn patch_lets_the_overlay_win() {
    let base = Style::new().fg(Color::Red).bg(Color::Blue).add_modifier(Modifier { bits: 1 });
    let overlay = Style::new().bg(Color::Yellow);
    let patched = base.patch(overlay);
    assert_eq!(patched.fg, Some(Color::Red));
    assert_eq!(patched.bg, Some(Color::Yellow));
    assert_eq!(patched.add_modifier, Modifier { bits: 1 });
    let remove = Style { sub_modifier: Modifier { bits: 1 }, ..Style::new() };
    assert_eq!(base.patch(remove).add_modifier, Modifier { bits: 0 });
    assert_eq!(adapt_style(base, ColorTier::NoColor).fg, None);
}

#[test]
fn default_gutter_layout() {
    let h = Highlighter::new(theme());
    let style = h.calculate_line_number_style();
    let line = h.to_line(&vec![], 0, style);
    let texts: Vec<&str> = line.spans.iter().map(|s| s.content.as_str()).collect();
    assert_eq!(texts, vec!["   ", "1", " ", "\u{2502}", " "]);
    let wide = Highlighter::new(theme()).line_number_padding(6).line_number_separator("|".to_string());
    let line = wide.to_line(&vec![], 41, style);
    let texts: Vec<&str> = line.spans.iter().map(|s| s.content.as_str()).collect();
    assert_eq!(texts, vec!["    ", "42", " ", "|", " "]);
    let narrow = Highlighter::new(theme()).line_number_padding(0);
    let line = narrow.to_line(&vec![], 99, style);
    assert_eq!(line.spans[0].content, "");
    assert_eq!(line.spans[1].content, "100");
}

#[test]
fn separator_style_applies_to_separator_only() {
    let sep = Style::new().fg(Color::Green);
    let h = Highlighter::new(theme()).line_number_separator_style(sep);
    let style = h.calculate_line_number_style();
    let line = h.to_line(&vec![], 0, style);
    assert_eq!(line.spans[3].style, sep);
    assert_eq!(line.spans[1].style, style);
}

#[test]
fn composing_twice_gives_the_same_line() {
    let h = Highlighter::new(theme()).highlight_range(0..1);
    let regions = vec![
        (token(rgb(1, 2, 3), rgb(4, 5, 6), 1), "let".to_string()),
        (token(rgb(7, 8, 9), rgb(4, 5, 6), 0), " x\n".to_string()),
    ];
    let style = h.calculate_line_number_style();
    assert_eq!(h.to_line(&regions, 0, style), h.to_line(&regions, 0, style));
}

#[test]
fn newline_and_empty_regions_leave_no_span() {
    let h = Highlighter::new(theme()).line_numbers(false);
    let regions = vec![
        (token(rgb(1, 2, 3), rgb(4, 5, 6), 0), "fn".to_string()),
        (token(rgb(1, 2, 3), rgb(4, 5, 6), 0), "".to_string()),
        (token(rgb(1, 2, 3), rgb(4, 5, 6), 0), "\n".to_string()),
    ];
    let line = h.to_line(&regions, 3, Style::new());
    assert_eq!(line.spans.len(), 1);
    assert_eq!(line.spans[0].content, "fn");
    assert_eq!(line.spans[0].style.fg, Some(Color::Rgb(1, 2, 3)));
    assert_eq!(h.to_line(&vec![], 3, Style::new()).spans.len(), 0);
}

#[test]
fn reset_override_beats_token_backgrounds() {
    let h = Highlighter::new(theme()).line_numbers(false).override_background(Color::Reset);
    let regions = vec![
        (token(rgb(1, 2, 3), rgb(200, 0, 0), 0), "a".to_string()),
        (token(rgb(1, 2, 3), rgb(0, 200, 0), 0), "b".to_string()),
    ];
    let line = h.to_line(&regions, 0, Style::new());
    assert_eq!(line.style.bg, Some(Color::Reset));
    for span in &line.spans {
        assert_eq!(span.style.bg, Some(Color::Reset));
    }
    assert_eq!(h.get_background(), Some(Color::Reset));
}

#[test]
fn highlighted_line_gets_overlay() {
    let h = Highlighter::new(theme())
        .line_numbers(false)
        .highlight_range(2..4)
        .highlight_style(Style::new().fg(Color::Black).bg(Color::Cyan));
    let regions = vec![(token(rgb(1, 2, 3), rgb(4, 5, 6), 0), "x".to_string())];
    let inside = h.to_line(&regions, 3, Style::new());
    assert_eq!(inside.spans[0].style.bg, Some(Color::Cyan));
    assert_eq!(inside.spans[0].style.fg, Some(Color::Black));
    let outside = h.to_line(&regions, 4, Style::new());
    assert_eq!(outside.spans[0].style.bg, Some(Color::Rgb(4, 5, 6)));
}

#[test]
fn read_error_fails_the_whole_document() {
    let h = Highlighter::new(theme());
    let store = tui_syntax_highlight::AssetStore::new(ThemeSet::new());
    let syntax = store.find_syntax_by_name("SQL").unwrap();
    let lines = vec!["select 1;\n".to_string(), "select 2;\n".to_string()];
    let err = std::io::Error::new(std::io::ErrorKind::InvalidData, "bad bytes");
    let r = h.highlight_reader(lines.clone(), Some(err), &syntax);
    assert!(matches!(r, Err(Error::Read(_))));
    let ok = h.highlight_reader(lines, None, &syntax).unwrap();
    assert_eq!(ok.lines.len(), 2);
}

#[test]
fn lines_split_on_newlines() {
    assert_eq!("a\nb".into_lines(), vec!["a".to_string(), "b".to_string()]);
    assert_eq!("a\n".to_string().into_lines(), vec!["a".to_string(), "".to_string()]);
    assert_eq!("".into_lines(), vec!["".to_string()]);
    assert_eq!(vec!["x", "y\n"].into_lines(), vec!["x".to_string(), "y\n".to_string()]);
    assert_eq!(vec!["z".to_string()].into_lines(), vec!["z".to_string()]);
}

#[test]
fn text_helpers() {
    assert_eq!(decimal_string(0), "0");
    assert_eq!(decimal_string(1207), "1207");
    assert_eq!(space_string(3), "   ");
    assert_eq!(without_newline("ab\n"), "ab");
    assert_eq!(without_newline("ab"), "ab");
    assert_eq!(ending_in_newline("ab"), "ab\n");
    assert_eq!(ending_in_newline("ab\n"), "ab\n");
}

#[test]
fn profile_adapts_configured_styles() {
    let h = Highlighter::with_profile(theme(), ColorTier::NoColor)
        .line_number_style(Style::new().fg(Color::Red));
    assert_eq!(h.calculate_line_number_style().fg, None);
    assert_eq!(h.get_background(), None);
    let h = Highlighter::with_profile(theme(), ColorTier::NoColor).override_background(Color::Blue);
    assert_eq!(h.get_background(), Some(Color::Reset));
}

#[test]
fn missing_folders_give_load_errors() {
    let mut themes = ThemeSet::new();
    assert!(matches!(
        add_theme_from_folder(&mut themes, "/nonexistent/themes"),
        Err(AssetError::Load(_))
    ));
    let mut syntaxes = tui_syntax_highlight::assets::load_default_syntaxes();
    let before = syntaxes.syntaxes().len();
    let r = add_syntax_from_folder(&mut syntaxes, "/nonexistent/syntaxes");
    assert!(matches!(r, Err(AssetError::Load(_))));
    assert_eq!(syntaxes.syntaxes().len(), before);
}

#[test]
fn asset_store_lookups() {
    let store = tui_syntax_highlight::AssetStore::new(ThemeSet::load_defaults());
    assert!(store.find_syntax_by_name("SQL").is_ok());
    assert!(store.find_syntax_by_extension("rs").is_ok());
    assert!(store.find_syntax_by_extension("RS").is_ok());
    assert!(matches!(
        store.find_syntax_by_extension("nope"),
        Err(AssetError::MissingSyntax(_))
    ));
    assert!(store.theme("base16-ocean.dark").is_ok());
    match store.theme("no such theme") {
        Err(AssetError::MissingTheme(name)) => assert_eq!(name, "no such theme"),
        _ => panic!("expected a missing theme"),
    }
    match store.find_syntax_by_name("Nope") {
        Err(AssetError::MissingSyntax(name)) => assert_eq!(name, "Nope"),
        _ => panic!("expected a missing syntax"),
    }
}
