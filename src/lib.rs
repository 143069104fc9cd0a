//! Renders tokenized source code as styled terminal lines: theme colors adapted to the
//! terminal's color support, a line-number gutter, and emphasis on chosen line ranges.
use vstd::prelude::*;

pub mod assets;
pub mod code;
pub mod convert;
pub mod error;
pub mod highlighter;
pub mod lines;
pub mod style;
pub mod text;

pub use assets::{add_syntax_from_folder, add_theme_from_folder, AssetStore, StoreSyntax};
pub use code::{CodeHighlighter, OverrideBackground};
pub use convert::{ColorTier, Converter, FontStyle, ThemeColor, ThemeStyle};
pub use error::{AssetError, Error};
pub use highlighter::{GutterTemplate, HighlightedText, Highlighter, LineCursor};
pub use lines::IntoLines;
pub use style::{Color, Line, Modifier, Span, Style};
pub use syntect;

verus! {

} // verus!
