//! Loading more themes and syntax definitions into the sets a caller owns.
use crate::error::AssetError;
use syntect::highlighting::{Theme, ThemeSet};
use syntect::parsing::{SyntaxDefinition, SyntaxReference, SyntaxSet, SyntaxSetBuilder};
use syntect::LoadingError;
use vstd::prelude::*;

verus! {

/// syntect's named collection of themes.
#[verifier::external_type_specification]
#[verifier::external_body]
pub struct ExThemeSet(ThemeSet);

/// syntect's builder of syntax sets.
#[verifier::external_type_specification]
#[verifier::external_body]
pub struct ExSyntaxSetBuilder(SyntaxSetBuilder);

/// A syntax definition as syntect parsed it.
#[verifier::external_type_specification]
#[verifier::external_body]
pub struct ExSyntaxDefinition(SyntaxDefinition);

/// The names of the syntaxes of a set, in the order the set holds them.
pub uninterp spec fn syntax_names(set: SyntaxSet) -> Seq<Seq<char>>;

/// The names of the syntax definitions a builder holds, in order.
pub uninterp spec fn builder_names(builder: SyntaxSetBuilder) -> Seq<Seq<char>>;

/// The name of a syntax definition.
pub uninterp spec fn definition_name(syntax: SyntaxDefinition) -> Seq<char>;

/// The names of the themes of a theme set.
pub uninterp spec fn theme_names(themes: ThemeSet) -> Set<Seq<char>>;

/// Whether some syntax of the set lists the extension, ignoring ASCII case.
pub uninterp spec fn extension_known(set: SyntaxSet, extension: Seq<char>) -> bool;

/// Whether the first-line pattern of some syntax of the set matches the line.
pub uninterp spec fn first_line_known(set: SyntaxSet, line: Seq<char>) -> bool;

/// Whether every syntax of the set can be tokenized without a panic in syntect: each has a
/// `__start` context, its patterns and its first-line pattern compile, and its contexts
/// decode and resolve within the set.
pub uninterp spec fn syntaxes_sound(set: SyntaxSet) -> bool;

/// Whether the stored contexts of every syntax of the set decode.
pub uninterp spec fn syntaxes_decode(set: SyntaxSet) -> bool;

/// The name of syntect's plain-text syntax.
pub open spec fn plain_text_name() -> Seq<char> {
    seq!['P', 'l', 'a', 'i', 'n', ' ', 'T', 'e', 'x', 't']
}

/// Whether the syntax is one of the set's.
pub uninterp spec fn syntax_of(set: SyntaxSet, syntax: SyntaxReference) -> bool;

/// Relies on syntect's derived `Clone` for `SyntaxSet`: the copy holds the same syntaxes.
pub assume_specification[ <SyntaxSet as Clone>::clone ](set: &SyntaxSet) -> (r: SyntaxSet)
    ensures
        syntax_names(r) == syntax_names(*set),
        syntaxes_sound(r) == syntaxes_sound(*set),
        syntaxes_decode(r) == syntaxes_decode(*set),
;

/// Relies on `SyntaxSet::load_defaults_newlines`: the syntaxes bundled with syntect, for
/// lines that keep their newline: syntect's loader built each from its YAML source, which
/// gives every one a `__start` context, and linked their contexts within the set; syntect
/// highlights with them in its own tests and examples.
#[verifier::external_body]
fn bundled_syntaxes() -> (r: SyntaxSet)
    ensures
        syntaxes_sound(r),
        syntaxes_decode(r),
{
    SyntaxSet::load_defaults_newlines()
}

/// The syntaxes bundled with syntect, for lines that keep their newline.
pub fn load_default_syntaxes() -> (r: SyntaxSet)
    ensures
        syntaxes_sound(r),
        syntaxes_decode(r),
{
    bundled_syntaxes()
}

/// Relies on `ThemeSet::add_from_folder`: it inserts the themes of the folder's theme files
/// one by one, named by file stem, and stops at the first that fails with syntect's loading
/// error; no theme is removed.
#[verifier::external_body]
fn load_theme_folder(themes: &mut ThemeSet, path: &str) -> (r: Result<(), LoadingError>)
    ensures
        theme_names(*old(themes)).subset_of(theme_names(*final(themes))),
{
    themes.add_from_folder(path)
}

/// Relies on `SyntaxSet::into_builder`: a builder holding the set's syntax definitions in
/// order. It panics on a set whose stored contexts do not decode, which `requires` leaves out.
#[verifier::external_body]
fn syntax_builder(set: SyntaxSet) -> (r: SyntaxSetBuilder)
    requires
        syntaxes_decode(set),
    ensures
        builder_names(r) == syntax_names(set),
{
    set.into_builder()
}

/// Relies on `SyntaxSetBuilder::add_from_folder`: it pushes the definitions of the folder's
/// syntax files, for lines that keep their newline, and stops at the first that fails with
/// syntect's loading error; definitions already held stay, in order.
#[verifier::external_body]
fn load_syntax_folder(builder: &mut SyntaxSetBuilder, path: &str) -> (r: Result<
    (),
    LoadingError,
>)
    ensures
        builder_names(*final(builder)).len() >= builder_names(*old(builder)).len(),
        builder_names(*final(builder)).take(builder_names(*old(builder)).len() as int)
            == builder_names(*old(builder)),
{
    builder.add_from_folder(path, true)
}

/// Relies on `SyntaxSetBuilder::build`: the syntax set of the builder's definitions, in
/// order, with their contexts held decoded.
#[verifier::external_body]
fn build_syntaxes(builder: SyntaxSetBuilder) -> (r: SyntaxSet)
    ensures
        syntax_names(r) == builder_names(builder),
        syntaxes_decode(r),
{
    builder.build()
}

/// Relies on `SyntaxSetBuilder::add`, which pushes the definition.
#[verifier::external_body]
fn add_definition(builder: &mut SyntaxSetBuilder, syntax: SyntaxDefinition)
    ensures
        builder_names(*final(builder)) == builder_names(*old(builder)).push(
            definition_name(syntax),
        ),
{
    builder.add(syntax)
}

/// Relies on `SyntaxSet::find_syntax_by_name`: a copy of the last syntax of that name, if any.
#[verifier::external_body]
fn syntax_named(set: &SyntaxSet, name: &str) -> (r: Option<SyntaxReference>)
    ensures
        r is Some <==> syntax_names(*set).contains(name@),
        r matches Some(s) ==> syntax_of(*set, s),
{
    set.find_syntax_by_name(name).cloned()
}

/// Relies on `SyntaxSet::find_syntax_by_extension`: a copy of the last syntax that lists the
/// extension, ignoring ASCII case, if any.
#[verifier::external_body]
fn syntax_for_extension(set: &SyntaxSet, extension: &str) -> (r: Option<SyntaxReference>)
    ensures
        r is Some <==> extension_known(*set, extension@),
        r matches Some(s) ==> syntax_of(*set, s),
{
    set.find_syntax_by_extension(extension).cloned()
}

/// Relies on `SyntaxSet::find_syntax_by_first_line`: a copy of the syntax whose first-line
/// pattern matches `line`, if any. It panics where a syntax's first-line pattern does not
/// compile, which syntect's loaders do not check; `requires` leaves such sets out.
#[verifier::external_body]
fn syntax_for_first_line(set: &SyntaxSet, line: &str) -> (r: Option<SyntaxReference>)
    requires
        syntaxes_sound(*set),
    ensures
        r is Some <==> first_line_known(*set, line@),
        r matches Some(s) ==> syntax_of(*set, s),
{
    set.find_syntax_by_first_line(line).cloned()
}

/// Relies on the map `ThemeSet::themes`: a copy of the theme of that name, if any.
#[verifier::external_body]
fn theme_named(themes: &ThemeSet, name: &str) -> (r: Option<Theme>)
    ensures
        r is Some <==> theme_names(*themes).contains(name@),
{
    themes.themes.get(name).cloned()
}

/// Adds the themes found in the folder at `path` to `themes`; every theme held before is
/// still held.
pub fn add_theme_from_folder(themes: &mut ThemeSet, path: &str) -> (r: Result<(), AssetError>)
    ensures
        theme_names(*old(themes)).subset_of(theme_names(*final(themes))),
        r matches Err(e) ==> e is Load,
{
    match load_theme_folder(themes, path) {
        Ok(()) => Ok(()),
        Err(e) => Err(AssetError::Load(e)),
    }
}

/// Adds the syntax definitions found in the folder at `path` to `syntaxes`, after those it
/// held; where loading fails, `syntaxes` is left as it was.
pub fn add_syntax_from_folder(syntaxes: &mut SyntaxSet, path: &str) -> (r: Result<(), AssetError>)
    requires
        syntaxes_decode(*old(syntaxes)),
    ensures
        syntaxes_decode(*final(syntaxes)),
        r is Err ==> *final(syntaxes) == *old(syntaxes),
        r is Ok ==> syntax_names(*final(syntaxes)).len() >= syntax_names(*old(syntaxes)).len()
            && syntax_names(*final(syntaxes)).take(syntax_names(*old(syntaxes)).len() as int)
            == syntax_names(*old(syntaxes)),
{
    let mut builder = syntax_builder(syntaxes.clone());
    match load_syntax_folder(&mut builder, path) {
        Ok(()) => {
            *syntaxes = build_syntaxes(builder);
            Ok(())
        },
        Err(e) => Err(AssetError::Load(e)),
    }
}

/// A syntax found in a store, kept with the syntax set it came from: the tokenizer must be
/// given the two together.
pub struct StoreSyntax<'s> {
    syntax: SyntaxReference,
    syntaxes: &'s SyntaxSet,
}

impl<'s> StoreSyntax<'s> {
    pub closed spec fn spec_syntax(&self) -> SyntaxReference {
        self.syntax
    }

    pub closed spec fn spec_syntaxes(&self) -> SyntaxSet {
        *self.syntaxes
    }

    /// Whether the syntax can be tokenized without a panic: its set is sound and holds it.
    pub open spec fn sound(&self) -> bool {
        syntaxes_sound(self.spec_syntaxes()) && syntax_of(self.spec_syntaxes(), self.spec_syntax())
    }

    pub(crate) fn syntax(&self) -> (r: &SyntaxReference)
        ensures
            *r == self.spec_syntax(),
    {
        &self.syntax
    }

    pub(crate) fn syntaxes(&self) -> (r: &'s SyntaxSet)
        ensures
            *r == self.spec_syntaxes(),
    {
        self.syntaxes
    }
}

/// The themes and syntax definitions that highlighters are configured from. Loaded once and
/// then read; adding to it takes `&mut`, so shared use needs a lock around it.
pub struct AssetStore {
    pub themes: ThemeSet,
    pub syntaxes: SyntaxSet,
}

impl AssetStore {
    /// A store of the given themes and the syntaxes bundled with syntect.
    pub fn new(themes: ThemeSet) -> (r: AssetStore)
        ensures
            r.themes == themes,
            syntaxes_sound(r.syntaxes),
            syntaxes_decode(r.syntaxes),
    {
        AssetStore { themes, syntaxes: load_default_syntaxes() }
    }

    /// Adds one syntax definition after the store's syntaxes; its themes stay as they were.
    /// A definition built by hand may lack a `__start` context or hold a pattern that does not
    /// compile, so the store's syntaxes are no longer known to be sound afterwards.
    pub fn add_syntax(&mut self, syntax: SyntaxDefinition)
        requires
            syntaxes_decode(old(self).syntaxes),
        ensures
            syntaxes_decode(final(self).syntaxes),
            final(self).themes == old(self).themes,
            syntax_names(final(self).syntaxes) == syntax_names(old(self).syntaxes).push(
                definition_name(syntax),
            ),
    {
        let mut builder = syntax_builder(self.syntaxes.clone());
        add_definition(&mut builder, syntax);
        self.syntaxes = build_syntaxes(builder);
    }

    /// The syntax of the given name, or an error that names it.
    pub fn find_syntax_by_name(&self, name: &str) -> (r: Result<StoreSyntax<'_>, AssetError>)
        ensures
            r is Ok <==> syntax_names(self.syntaxes).contains(name@),
            r matches Ok(found) ==> (syntaxes_sound(self.syntaxes) ==> found.sound()),
            r matches Err(e) ==> e matches AssetError::MissingSyntax(n) && n@ == name@,
    {
        match syntax_named(&self.syntaxes, name) {
            Some(syntax) => Ok(StoreSyntax { syntax, syntaxes: &self.syntaxes }),
            None => Err(AssetError::MissingSyntax(String::from_str(name))),
        }
    }

    /// The syntax for files with the given extension, or an error that names it.
    pub fn find_syntax_by_extension(&self, extension: &str) -> (r: Result<
        StoreSyntax<'_>,
        AssetError,
    >)
        ensures
            r is Ok <==> extension_known(self.syntaxes, extension@),
            r matches Ok(found) ==> (syntaxes_sound(self.syntaxes) ==> found.sound()),
            r matches Err(e) ==> e matches AssetError::MissingSyntax(n) && n@ == extension@,
    {
        match syntax_for_extension(&self.syntaxes, extension) {
            Some(syntax) => Ok(StoreSyntax { syntax, syntaxes: &self.syntaxes }),
            None => Err(AssetError::MissingSyntax(String::from_str(extension))),
        }
    }

    /// The syntax recognized from a document's first line, or an error that holds the line.
    pub fn find_syntax_by_first_line(&self, line: &str) -> (r: Result<
        StoreSyntax<'_>,
        AssetError,
    >)
        requires
            syntaxes_sound(self.syntaxes),
        ensures
            r is Ok <==> first_line_known(self.syntaxes, line@),
            r matches Ok(found) ==> found.sound(),
            r matches Err(e) ==> e matches AssetError::MissingSyntax(n) && n@ == line@,
    {
        match syntax_for_first_line(&self.syntaxes, line) {
            Some(syntax) => Ok(StoreSyntax { syntax, syntaxes: &self.syntaxes }),
            None => Err(AssetError::MissingSyntax(String::from_str(line))),
        }
    }

    /// The syntax for a file: the one that lists the whole file name as an extension, else
    /// the one that lists its extension, else the one whose first-line pattern matches its
    /// first line, else plain text; an error names the file where none of these is held.
    pub fn find_syntax_for_file(&self, file_name: &str, extension: &str, first_line: &str) -> (r:
        Result<StoreSyntax<'_>, AssetError>)
        requires
            syntaxes_sound(self.syntaxes),
        ensures
            r is Ok <==> (extension_known(self.syntaxes, file_name@) || extension_known(
                self.syntaxes,
                extension@,
            ) || first_line_known(self.syntaxes, first_line@) || syntax_names(
                self.syntaxes,
            ).contains(plain_text_name())),
            r matches Ok(found) ==> found.sound(),
            r matches Err(e) ==> e matches AssetError::MissingSyntax(n) && n@ == file_name@,
    {
        if let Ok(found) = self.find_syntax_by_extension(file_name) {
            return Ok(found);
        }
        if let Ok(found) = self.find_syntax_by_extension(extension) {
            return Ok(found);
        }
        if let Ok(found) = self.find_syntax_by_first_line(first_line) {
            return Ok(found);
        }
        let plain = "Plain Text";
        proof {
            reveal_strlit("Plain Text");
            assert(plain@ =~= plain_text_name());
        }
        match self.find_syntax_by_name(plain) {
            Ok(found) => Ok(found),
            Err(_) => Err(AssetError::MissingSyntax(String::from_str(file_name))),
        }
    }

    /// The theme of the given name, or an error that names it.
    pub fn theme(&self, name: &str) -> (r: Result<Theme, AssetError>)
        ensures
            r is Ok <==> theme_names(self.themes).contains(name@),
            r matches Err(e) ==> e matches AssetError::MissingTheme(n) && n@ == name@,
    {
        match theme_named(&self.themes, name) {
            Some(theme) => Ok(theme),
            None => Err(AssetError::MissingTheme(String::from_str(name))),
        }
    }
}

/// A syntax added to a store is then found by its name.
pub proof fn added_syntax_is_found(before: AssetStore, after: AssetStore, syntax: SyntaxDefinition)
    requires
        syntax_names(after.syntaxes) == syntax_names(before.syntaxes).push(
            definition_name(syntax),
        ),
    ensures
        syntax_names(after.syntaxes).contains(definition_name(syntax)),
{
    assert(syntax_names(after.syntaxes)[syntax_names(before.syntaxes).len() as int]
        == definition_name(syntax));
}

} // verus!
