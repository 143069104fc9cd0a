//! What can go wrong while highlighting or loading assets.
use syntect::Error as SyntectError;
use syntect::LoadingError;
use vstd::prelude::*;

verus! {

/// The error of a failed read, carried to the caller.
#[verifier::external_type_specification]
#[verifier::external_body]
pub struct ExIoError(std::io::Error);

/// syntect's error for a line its syntax definition fails on, carried to the caller.
#[verifier::external_type_specification]
#[verifier::external_body]
pub struct ExSyntectError(SyntectError);

/// syntect's error for theme or syntax files it cannot load, carried to the caller.
#[verifier::external_type_specification]
#[verifier::external_body]
pub struct ExLoadingError(LoadingError);

/// Why a document could not be highlighted. Either ends the whole document: no partial
/// output is returned.
#[derive(Debug)]
pub enum Error {
    /// The input stream failed.
    Read(std::io::Error),
    /// The tokenizer rejected a line.
    Highlight(SyntectError),
}

/// Why themes or syntax definitions could not be loaded.
#[derive(Debug)]
pub enum AssetError {
    /// A theme or syntax file could not be read or parsed.
    Load(LoadingError),
    /// No theme has this name.
    MissingTheme(String),
    /// No syntax has this name or extension.
    MissingSyntax(String),
}

} // verus!
