use std::sync::Arc;

use syntect::highlighting::ThemeSet;
use syntect::util::LinesWithEndings;
use tui_syntax_highlight::{
    AssetStore, Color, GutterTemplate, HighlightedText, Highlighter, Line, Span, Style,
};

const SOURCE: &str = "select a,b,c from table;\nselect b,c,d from table2;";

fn theme() -> syntect::highlighting::Theme {
    ThemeSet::load_defaults().themes["base16-ocean.dark"].clone()
}

fn highlight(highlighter: &Highlighter) -> HighlightedText {
    let store = AssetStore::new(ThemeSet::new());
    let syntax = store.find_syntax_by_name("SQL").unwrap();
    let lines: Vec<&str> = LinesWithEndings::from(SOURCE).collect();
    highlighter.highlight_lines(lines, &syntax).unwrap()
}

fn line_text(line: &Line) -> String {
    line.spans.iter().map(|s| s.content.as_str()).collect()
}

fn span_texts(line: &Line) -> Vec<&str> {
    line.spans.iter().map(|s| s.content.as_str()).collect()
}

#[test]
fn highlighter() {
    let highlighter = Highlighter::new(theme());
    let text = highlight(&highlighter);
    assert_eq!(text.lines.len(), 2);
    assert_eq!(line_text(&text.lines[0]), "   1 \u{2502} select a,b,c from table;");
    assert_eq!(line_text(&text.lines[1]), "   2 \u{2502} select b,c,d from table2;");
    assert_eq!(span_texts(&text.lines[0])[..5], ["   ", "1", " ", "\u{2502}", " "]);
    assert!(text.background.is_some());
    assert_eq!(text.lines[0].style.bg, text.background);
    assert_eq!(text.background, highlighter.get_background());
}

#[test]
fn highlighter_no_line_number() {
    let highlighter = Highlighter::new(theme()).line_numbers(false);
    let text = highlight(&highlighter);
    assert_eq!(text.lines.len(), 2);
    assert_eq!(line_text(&text.lines[0]), "select a,b,c from table;");
    assert_eq!(line_text(&text.lines[1]), "select b,c,d from table2;");
    assert_eq!(text.lines[0].spans[0].content, "select");
}

#[test]
fn highlighter_override_bg() {
    let highlighter = Highlighter::new(theme()).override_background(Color::Reset);
    let text = highlight(&highlighter);
    assert_eq!(text.background, Some(Color::Reset));
    for line in &text.lines {
        assert_eq!(line.style.bg, Some(Color::Reset));
        for span in &line.spans {
            assert_eq!(span.style.bg, Some(Color::Reset));
        }
    }
    assert_eq!(line_text(&text.lines[0]), "   1 \u{2502} select a,b,c from table;");
}

struct Arrow;

impl GutterTemplate for Arrow {
    fn gutter(&self, n: usize, style: Style) -> Vec<Span> {
        vec![
            Span { content: n.to_string(), style: Style::new() },
            Span { content: " ".to_string(), style: Style::new() },
            Span { content: ">".to_string(), style },
        ]
    }
}

#[test]
fn highlighter_template() {
    let highlighter = Highlighter::new(theme()).gutter_template(Some(Arc::new(Arrow)));
    let text = highlight(&highlighter);
    assert_eq!(line_text(&text.lines[0]), "1 >select a,b,c from table;");
    assert_eq!(line_text(&text.lines[1]), "2 >select b,c,d from table2;");
    let number_style = highlighter.calculate_line_number_style();
    assert_eq!(text.lines[0].spans[2].style, number_style);
}

#[test]
fn highlight_range() {
    let highlighter = Highlighter::new(theme()).highlight_range(0..1);
    let text = highlight(&highlighter);
    for span in &text.lines[0].spans[5..] {
        assert_eq!(span.style.bg, Some(Color::Yellow));
    }
    assert_eq!(text.lines[0].style.bg, Some(Color::Yellow));
    for span in &text.lines[1].spans {
        assert_ne!(span.style.bg, Some(Color::Yellow));
    }
    assert_ne!(text.lines[1].style.bg, Some(Color::Yellow));
    assert_eq!(line_text(&text.lines[0]), "   1 \u{2502} select a,b,c from table;");
}
