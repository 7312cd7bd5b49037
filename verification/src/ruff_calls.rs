//! Calls into Ruff's crates.
use vstd::prelude::*;

use std::num::NonZeroU8;
use std::path::Path;

use crate::configuration::types::IndentStyle;
use crate::format_text::{
    FormatLineEnding, FormatLineEnding as FLE, FormatQuoteStyle, FormatQuoteStyle as FQS,
    FormatSettings, MagicTrailingComma, MagicTrailingComma as MTC, PreviewMode, PreviewMode as PM,
};
use ruff_formatter::printer::LineEnding as RLE;
use ruff_formatter::{FormatOptions, IndentStyle as RIS, IndentWidth, LineWidth};
use ruff_python_formatter::{
    MagicTrailingComma as RMC, PreviewMode as RPM, PyFormatOptions, QuoteStyle as RQS,
};
use crate::lint::{imports_view, LintRule, LintSettings, RequiredImport, RequiredImportView};
use ruff_linter::line_width::{IndentWidth as LintIndentWidth, LineLength};
use ruff_linter::linter::lint_fix;
use ruff_linter::registry::Rule;
use ruff_linter::settings::flags::Noqa;
use ruff_linter::settings::types::UnsafeFixes;
use ruff_linter::settings::LinterSettings;
use ruff_linter::source_kind::SourceKind;
use ruff_python_ast::PySourceType;
use ruff_python_semantic::{Alias, MemberNameImport, ModuleNameImport, NameImport, NameImports};
use serde::de::value::StrDeserializer;
use serde::Deserialize;

verus! {

/// What `NameImports::deserialize` gives for a text: the imports of its one import
/// statement, in the order they are written, or the error's message.
pub uninterp spec fn name_imports_parse(text: Seq<char>) -> Result<Seq<RequiredImportView>, Seq<char>>;

/// `NameImports::deserialize` from a string: Ruff parses the text as a Python module that
/// must hold exactly one import statement. Each `NameImport` it gives is converted field by
/// field; what it gives is left to a name of the text.
#[verifier::external_body]
pub(crate) fn parse_name_imports(text: &str) -> (r: Result<Vec<RequiredImport>, String>)
    ensures
        match r {
            Ok(v) => name_imports_parse(text@) == Ok::<Seq<RequiredImportView>, Seq<char>>(imports_view(v@)),
            Err(e) => name_imports_parse(text@) == Err::<Seq<RequiredImportView>, Seq<char>>(e@),
        },
{
    match NameImports::deserialize(StrDeserializer::<serde::de::value::Error>::new(text)) {
        Ok(imports) => Ok(imports.into_imports().into_iter().map(|import| match import {
            NameImport::Import(m) => RequiredImport::Import { name: m.name.name, as_name: m.name.as_name },
            NameImport::ImportFrom(f) => RequiredImport::ImportFrom { module: f.module, name: f.name.name, as_name: f.name.as_name, level: f.level },
        }).collect()),
        Err(error) => Err(error.to_string()),
    }
}

/// Ruff's default indent style: `PyFormatOptions::default().indent_style()`, which its
/// source sets to spaces.
#[verifier::external_body]
pub(crate) fn default_indent_style() -> (style: IndentStyle)
    ensures
        style == IndentStyle::Space,
{
    match PyFormatOptions::default().indent_style() {
        RIS::Tab => IndentStyle::Tab,
        RIS::Space => IndentStyle::Space,
    }
}

/// Ruff's default line width: `PyFormatOptions::default().line_width()`, 88 in its source.
#[verifier::external_body]
pub(crate) fn default_line_width() -> (width: u16)
    ensures
        width == 88,
{
    PyFormatOptions::default().line_width().value()
}

/// Ruff's default indent width: `PyFormatOptions::default().indent_width()`, 4 in its source.
#[verifier::external_body]
pub(crate) fn default_indent_width() -> (width: u8)
    ensures
        width == 4,
{
    PyFormatOptions::default().indent_width().value() as u8
}

/// Ruff's default line ending: `PyFormatOptions::default().line_ending()`, a line feed in
/// its source.
#[verifier::external_body]
pub(crate) fn default_line_ending() -> (ending: FormatLineEnding)
    ensures
        ending == FormatLineEnding::LineFeed,
{
    match PyFormatOptions::default().line_ending() {
        RLE::LineFeed => FormatLineEnding::LineFeed,
        RLE::CarriageReturnLineFeed => FormatLineEnding::CarriageReturnLineFeed,
        RLE::CarriageReturn => FormatLineEnding::CarriageReturn,
    }
}

/// Ruff's default quote style: `PyFormatOptions::default().quote_style()`, double quotes in
/// its source.
#[verifier::external_body]
pub(crate) fn default_quote_style() -> (style: FormatQuoteStyle)
    ensures
        style == FormatQuoteStyle::Double,
{
    match PyFormatOptions::default().quote_style() {
        RQS::Single => FormatQuoteStyle::Single,
        RQS::Double => FormatQuoteStyle::Double,
        RQS::Preserve => FormatQuoteStyle::Preserve,
    }
}

/// Ruff's default for magic trailing commas:
/// `PyFormatOptions::default().magic_trailing_comma()`, `Respect` in its source.
#[verifier::external_body]
pub(crate) fn default_magic_trailing_comma() -> (comma: MagicTrailingComma)
    ensures
        comma == MagicTrailingComma::Respect,
{
    match PyFormatOptions::default().magic_trailing_comma() {
        RMC::Respect => MagicTrailingComma::Respect,
        RMC::Ignore => MagicTrailingComma::Ignore,
    }
}

/// Ruff's default preview mode: `PyFormatOptions::default().preview()`, disabled in its source.
#[verifier::external_body]
pub(crate) fn default_preview() -> (mode: PreviewMode)
    ensures
        mode == PreviewMode::Disabled,
{
    match PyFormatOptions::default().preview() {
        RPM::Disabled => PreviewMode::Disabled,
        RPM::Enabled => PreviewMode::Enabled,
    }
}

/// What `ruff_python_formatter::format_module_source` gives for a source with the options
/// built from a file path and settings: the formatted code, or the error's message.
pub uninterp spec fn ruff_formatted(path: Seq<char>, source: Seq<char>, settings: FormatSettings) -> Result<
    Seq<char>,
    Seq<char>,
>;

/// Ruff's formatter options, opaque here.
#[verifier::external_type_specification]
#[verifier::external_body]
pub struct ExPyFormatOptions(PyFormatOptions);

/// The options `PyFormatOptions::from_extension(path)` gives, with every setting replaced by
/// the one given; each of the library's enums is converted variant by variant.
/// The widths must not be zero: Ruff's `LineWidth` and `IndentWidth` hold no zero.
#[verifier::external_body]
fn ruff_options(path: &str, s: &FormatSettings) -> (options: PyFormatOptions)
    requires
        s.line_width >= 1,
        s.indent_width >= 1,
{
    PyFormatOptions::from_extension(Path::new(path))
        .with_indent_style(match s.indent_style { IndentStyle::Tab => RIS::Tab, IndentStyle::Space => RIS::Space })
        .with_line_width(LineWidth::try_from(s.line_width).unwrap())
        .with_indent_width(IndentWidth::try_from(s.indent_width).unwrap())
        .with_line_ending(match s.line_ending { FLE::LineFeed => RLE::LineFeed, FLE::CarriageReturnLineFeed => RLE::CarriageReturnLineFeed, FLE::CarriageReturn => RLE::CarriageReturn })
        .with_quote_style(match s.quote_style { FQS::Single => RQS::Single, FQS::Double => RQS::Double, FQS::Preserve => RQS::Preserve })
        .with_magic_trailing_comma(match s.magic_trailing_comma { MTC::Respect => RMC::Respect, MTC::Ignore => RMC::Ignore })
        .with_preview(match s.preview { PM::Disabled => RPM::Disabled, PM::Enabled => RPM::Enabled })
}

/// `ruff_python_formatter::format_module_source` on the options for a file path and settings.
/// The widths must not be zero: Ruff's `LineWidth` and `IndentWidth` hold no zero. The output
/// is left to a name of the path, the source and the settings.
#[verifier::external_body]
pub(crate) fn format_module_source(path: &str, source: &str, s: &FormatSettings) -> (r: Result<String, String>)
    requires
        s.line_width >= 1,
        s.indent_width >= 1,
    ensures
        match r {
            Ok(code) => ruff_formatted(path@, source@, *s) == Ok::<Seq<char>, Seq<char>>(code@),
            Err(e) => ruff_formatted(path@, source@, *s) == Err::<Seq<char>, Seq<char>>(e@),
        },
{
    match ruff_python_formatter::format_module_source(source, ruff_options(path, s)) {
        Ok(printed) => Ok(printed.into_code()),
        Err(error) => Err(error.to_string()),
    }
}

/// The settings of Ruff's linter, opaque here.
#[verifier::external_type_specification]
#[verifier::external_body]
pub struct ExLinterSettings(LinterSettings);

/// The default line length of Ruff's linter: `LineLength::default()`, 88 in its source.
#[verifier::external_body]
pub(crate) fn default_lint_line_length() -> (length: u16)
    ensures
        length == 88,
{
    LineLength::default().value()
}

/// The default tab size of Ruff's linter: `IndentWidth::default()`, 4 in its source.
#[verifier::external_body]
pub(crate) fn default_lint_tab_size() -> (size: u8)
    ensures
        size == 4,
{
    NonZeroU8::from(LintIndentWidth::default()).get()
}

/// `LinterSettings::default()` with the lint fixes' settings handed over field by field: the
/// rules (collected into a `RuleTable`, which enables each with its fixes), preview mode, the
/// line length (`LineLength::try_from`), the tab size (`IndentWidth::from(NonZeroU8)`) and
/// isort's required imports (each converted into a `NameImport`, collected into its
/// `BTreeSet`). Neither width may be zero: those types hold no zero. Nothing is stated of the
/// opaque settings.
#[verifier::external_body]
pub(crate) fn linter_settings(s: &LintSettings) -> (settings: LinterSettings)
    requires
        s.line_length >= 1,
        s.tab_size >= 1,
{
    let mut settings = LinterSettings {
        rules: s.rules.iter().map(|rule| match rule { LintRule::UnusedImport => Rule::UnusedImport, LintRule::UnsortedImports => Rule::UnsortedImports, LintRule::MissingRequiredImport => Rule::MissingRequiredImport }).collect(),
        preview: s.preview.into(),
        line_length: LineLength::try_from(s.line_length).unwrap(),
        tab_size: NonZeroU8::new(s.tab_size).unwrap().into(),
        ..LinterSettings::default()
    };
    settings.isort.required_imports = s.required_imports.iter().map(|import| match import.clone() {
        RequiredImport::Import { name, as_name } => NameImport::Import(ModuleNameImport { name: Alias { name, as_name } }),
        RequiredImport::ImportFrom { module, name, as_name, level } => NameImport::ImportFrom(MemberNameImport { module, name: Alias { name, as_name }, level }),
    }).collect();
    settings
}

/// `ruff_linter::linter::lint_fix` on a Python file (a stub when the path says so, by
/// `PySourceType::from`), with `noqa` comments honoured and no unsafe fixes: the source after
/// the fixes, or the error's message. Nothing is stated of the result: it is not a function of
/// the arguments alone. `LinterSettings::default()` takes the working directory
/// (`fs::get_cwd()`) as its project root and as the first of its source roots, and isort's
/// sorting asks the file system whether a module lies under a source root (`match_sources` in
/// `rules/isort/categorize.rs`) to tell first-party imports from third-party ones.
#[verifier::external_body]
pub(crate) fn lint_fix_source(path: &str, source: &str, settings: &LinterSettings) -> (fixed: Result<
    String,
    String,
>) {
    let path = Path::new(path);
    let source_type = PySourceType::from(path);
    let kind = SourceKind::Python { code: source.to_owned(), is_stub: source_type.is_stub() };
    match lint_fix(path, None, Noqa::Enabled, UnsafeFixes::default(), settings, &kind, source_type) {
        Ok(fixed) => Ok(fixed.transformed.source_code().to_owned()),
        Err(error) => Err(error.to_string()),
    }
}

} // verus!
