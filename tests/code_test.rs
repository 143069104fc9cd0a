use syntect::highlighting::ThemeSet;
use tui_syntax_highlight::{
    AssetError, AssetStore, CodeHighlighter, Color, FontStyle, Modifier, OverrideBackground,
    ThemeColor, ThemeStyle,
};

fn store() -> AssetStore {
    AssetStore::new(ThemeSet::load_defaults())
}

fn token(fg: ThemeColor, bg: ThemeColor, bits: u8) -> ThemeStyle {
    ThemeStyle { foreground: fg, background: bg, font_style: FontStyle { bits } }
}

fn rgb(r: u8, g: u8, b: u8) -> ThemeColor {
    ThemeColor { r, g, b, a: 0xff }
}

#[test]
fn rgb_theme_keeps_channel_order() {
    let h = CodeHighlighter::new(&store(), "base16-ocean.dark").unwrap();
    let regions = vec![(token(rgb(1, 2, 3), rgb(4, 5, 6), 1), "x\n".to_string())];
    let lines = h.to_tui_text(&regions);
    assert_eq!(lines.len(), 1);
    let style = lines[0].spans[0].style;
    assert_eq!(style.fg, Some(Color::Rgb(1, 2, 3)));
    assert_eq!(style.bg, Some(Color::Rgb(4, 5, 6)));
    assert_eq!(style.add_modifier, Modifier { bits: 1 });
}

#[test]
fn background_overrides() {
    let regions = vec![(token(rgb(1, 2, 3), rgb(4, 5, 6), 0), "x\n".to_string())];
    let empty = CodeHighlighter::new(&store(), "base16-ocean.dark")
        .unwrap()
        .override_background(OverrideBackground::Empty);
    assert_eq!(empty.to_tui_text(&regions)[0].spans[0].style.bg, None);
    let blue = CodeHighlighter::new(&store(), "base16-ocean.dark")
        .unwrap()
        .override_background(OverrideBackground::Color(Color::Blue));
    assert_eq!(blue.to_tui_text(&regions)[0].spans[0].style.bg, Some(Color::Blue));
}

#[test]
fn palette_theme_colors() {
    let theme = ThemeSet::load_defaults().themes["base16-ocean.dark"].clone();
    let h = CodeHighlighter::new_ansi(theme);
    let regions = vec![
        (token(ThemeColor { r: 9, g: 0, b: 0, a: 0 }, rgb(4, 5, 6), 0), "a".to_string()),
        (token(ThemeColor { r: 99, g: 0, b: 0, a: 0 }, rgb(4, 5, 6), 0), "b".to_string()),
        (token(ThemeColor { r: 1, g: 2, b: 3, a: 1 }, rgb(4, 5, 6), 0), "c".to_string()),
        (token(rgb(7, 8, 9), rgb(4, 5, 6), 0), "d\n".to_string()),
    ];
    let lines = h.to_tui_text(&regions);
    let spans = &lines[0].spans;
    assert_eq!(spans[0].style.fg, Some(Color::LightRed));
    assert_eq!(spans[1].style.fg, Some(Color::Indexed(99)));
    assert_eq!(spans[2].style.fg, Some(Color::Reset));
    assert_eq!(spans[3].style.fg, Some(Color::Rgb(7, 8, 9)));
    assert_eq!(spans[3].content, "d");
    assert_eq!(spans[0].style.bg, None);
}

#[test]
fn regions_split_into_lines() {
    let h = CodeHighlighter::new(&store(), "base16-ocean.dark").unwrap();
    let regions = vec![
        (token(rgb(1, 1, 1), rgb(0, 0, 0), 0), "one\n".to_string()),
        (token(rgb(2, 2, 2), rgb(0, 0, 0), 0), "two".to_string()),
        (token(rgb(3, 3, 3), rgb(0, 0, 0), 0), "\n".to_string()),
        (token(rgb(4, 4, 4), rgb(0, 0, 0), 0), "left open".to_string()),
    ];
    let lines = h.to_tui_text(&regions);
    assert_eq!(lines.len(), 2);
    assert_eq!(lines[0].spans.len(), 1);
    assert_eq!(lines[0].spans[0].content, "one");
    assert_eq!(lines[1].spans.len(), 1);
    assert_eq!(lines[1].spans[0].content, "two");
}

#[test]
fn code_highlighter_lines() {
    let store = store();
    let h = CodeHighlighter::new(&store, "base16-ocean.dark").unwrap();
    let syntax = store.find_syntax_by_name("SQL").unwrap();
    let lines = h.highlight_lines("select a from t;\nselect b from u;", &syntax).unwrap();
    assert_eq!(lines.len(), 2);
    let first: String = lines[0].spans.iter().map(|s| s.content.as_str()).collect();
    assert_eq!(first, "select a from t;");
    let bash = store.find_syntax_by_first_line("#!/bin/bash").unwrap();
    let detected = h.highlight_lines("#!/bin/bash\necho hi", &bash).unwrap();
    assert_eq!(detected.len(), 2);
    let unknown = store.find_syntax_by_first_line("plain words");
    assert!(matches!(unknown, Err(AssetError::MissingSyntax(_))));
    assert_eq!(h.highlight_lines(Vec::<String>::new(), &syntax).unwrap().len(), 0);
}

#[test]
fn missing_theme_is_a_lookup_error() {
    assert!(matches!(
        CodeHighlighter::new(&store(), "no such theme"),
        Err(AssetError::MissingTheme(_))
    ));
}

#[test]
fn syntax_detection() {
    let store = store();
    let h = CodeHighlighter::new(&store, "base16-ocean.dark").unwrap();
    let detected = h.highlight_lines_detected(&store, "#!/bin/bash\necho hi").unwrap().unwrap();
    assert_eq!(detected.len(), 2);
    assert!(matches!(
        h.highlight_lines_detected(&store, "plain words"),
        Err(AssetError::MissingSyntax(_))
    ));
    assert!(store.find_syntax_for_file("Makefile", "", "all:").is_ok());
    assert!(store.find_syntax_for_file("main.rs", "rs", "fn main() {}").is_ok());
    assert!(store.find_syntax_for_file("notes", "", "hello").is_ok());
}
