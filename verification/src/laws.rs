//! What holds of formatting, lint fixing and the plugin's answers for every input.
use vstd::prelude::*;

use vstd::utf8::{decode_utf8, encode_utf8, valid_utf8};

use crate::configuration::types::{ConfigurationView, IndentStyle, LineEnding, QuoteStyle};
use crate::format_text::{
    format_result, resolved_format_settings, FormatLineEnding, FormatQuoteStyle, MagicTrailingComma,
    PreviewMode,
};
use crate::ruff_calls::ruff_formatted;
use crate::std_calls::utf8_error_text;
use crate::lint::{
    enabled_rules, lint_settings_of, parsed_imports, required_import_set, LintRule,
    RequiredImportView,
};
use crate::plugin::format_response;

verus! {

/// Formatting reports a text only when it differs from the input, and reports nothing
/// exactly when the formatter gives the input back.
pub proof fn law_format_reports_only_changes(input: Seq<char>, formatted: Result<Seq<char>, Seq<char>>)
    ensures
        format_result(input, formatted) matches Ok(Some(code)) ==> code != input,
        (format_result(input, formatted) == Ok::<Option<Seq<char>>, Seq<char>>(None)) <==> (
        formatted == Ok::<Seq<char>, Seq<char>>(input)),
        formatted matches Err(e) ==> format_result(input, formatted) == Err::<
            Option<Seq<char>>,
            Seq<char>,
        >(e),
{
}

/// Ruff is never given a zero width: a zero line length or indent width leaves Ruff's default.
pub proof fn law_format_widths_never_zero(config: ConfigurationView)
    ensures
        resolved_format_settings(config).line_width >= 1,
        resolved_format_settings(config).indent_width >= 1,
        config.line_length == Some(0u16) ==> resolved_format_settings(config).line_width == 88,
        config.indent_width == Some(0u8) ==> resolved_format_settings(config).indent_width == 4,
{
}

/// A lint rule is enabled exactly when its flag is set to `true`, and no rule twice.
pub proof fn law_rule_enabled_iff_flag(config: ConfigurationView)
    ensures
        enabled_rules(config).contains(LintRule::UnusedImport) <==> (config.fix_lint_errors matches Some(
            f,
        ) && f.unused_import == Some(true)),
        enabled_rules(config).contains(LintRule::UnsortedImports) <==> (
        config.fix_lint_errors matches Some(f) && f.unsorted_imports == Some(true)),
        enabled_rules(config).contains(LintRule::MissingRequiredImport) <==> (
        config.fix_lint_errors matches Some(f) && f.missing_required_import == Some(true)),
        enabled_rules(config).no_duplicates(),
{
    let r = enabled_rules(config);
    match config.fix_lint_errors {
        Some(f) => {
            if f.unused_import == Some(true) {
                assert(r[0] == LintRule::UnusedImport);
            }
            if f.unsorted_imports == Some(true) {
                let i = if f.unused_import == Some(true) { 1int } else { 0int };
                assert(r[i] == LintRule::UnsortedImports);
            }
            if f.missing_required_import == Some(true) {
                assert(r[r.len() - 1] == LintRule::MissingRequiredImport);
            }
        },
        None => {},
    }
}

/// An import is required exactly when one of the required import strings names it.
pub proof fn law_required_imports_union(texts: Seq<Seq<char>>, import: RequiredImportView)
    ensures
        required_import_set(texts).contains(import) <==> exists|i: int|
            0 <= i < texts.len() && #[trigger] parsed_imports(texts[i]).contains(import),
    decreases texts.len(),
{
    if texts.len() > 0 {
        let rest = texts.drop_last();
        law_required_imports_union(rest, import);
        if required_import_set(texts).contains(import) {
            if !required_import_set(rest).contains(import) {
                assert(parsed_imports(texts[texts.len() - 1]).contains(import));
            } else {
                let i = choose|i: int| 0 <= i < rest.len() && #[trigger] parsed_imports(rest[i]).contains(import);
                assert(texts[i] == rest[i]);
            }
        }
        if exists|i: int| 0 <= i < texts.len() && #[trigger] parsed_imports(texts[i]).contains(import) {
            let i = choose|i: int| 0 <= i < texts.len() && #[trigger] parsed_imports(texts[i]).contains(import);
            if i < texts.len() - 1 {
                assert(parsed_imports(rest[i]).contains(import));
            }
        }
    }
}

/// The required imports do not depend on the order of the strings, nor on a string given
/// twice.
pub proof fn law_required_imports_order_free(a: Seq<Seq<char>>, b: Seq<Seq<char>>)
    requires
        a.to_set() == b.to_set(),
    ensures
        required_import_set(a) == required_import_set(b),
{
    assert forall|x: RequiredImportView| required_import_set(a).contains(x) implies required_import_set(b).contains(x) by {
        law_required_imports_union(a, x);
        law_required_imports_union(b, x);
        let i = choose|i: int| 0 <= i < a.len() && #[trigger] parsed_imports(a[i]).contains(x);
        assert(a.to_set().contains(a[i]));
        let j = choose|j: int| 0 <= j < b.len() && b[j] == a[i];
        assert(parsed_imports(b[j]).contains(x));
    }
    assert forall|x: RequiredImportView| required_import_set(b).contains(x) implies required_import_set(a).contains(x) by {
        law_required_imports_union(a, x);
        law_required_imports_union(b, x);
        let j = choose|j: int| 0 <= j < b.len() && #[trigger] parsed_imports(b[j]).contains(x);
        assert(b.to_set().contains(b[j]));
        let i = choose|i: int| 0 <= i < a.len() && a[i] == b[j];
        assert(parsed_imports(a[i]).contains(x));
    }
    assert(required_import_set(a) =~= required_import_set(b));
}

/// Ruff's linter is never given a zero width: a zero line length or indent width leaves
/// its default.
pub proof fn law_lint_widths_never_zero(config: ConfigurationView, rules: Seq<LintRule>)
    ensures
        lint_settings_of(config, rules).line_length >= 1,
        lint_settings_of(config, rules).tab_size >= 1,
        config.line_length == Some(0u16) ==> lint_settings_of(config, rules).line_length == 88,
        config.indent_width == Some(0u8) ==> lint_settings_of(config, rules).tab_size == 4,
{
}

/// A request for a range of a file is answered with nothing, whatever the file holds.
pub proof fn law_range_requests_unsupported(path: Seq<char>, bytes: Seq<u8>, config: ConfigurationView)
    ensures
        format_response(path, bytes, true, config) == Ok::<Option<Seq<u8>>, Seq<char>>(None),
{
}

/// Ruff's formatter is given each setting the configuration holds, variant for variant, and
/// Ruff's default for each it does not: double quotes (never "preserve"), line feeds (never a
/// lone carriage return), space indents, magic trailing commas respected, no preview.
pub proof fn law_format_settings_follow_configuration(config: ConfigurationView)
    ensures
        config.quote_style == Some(QuoteStyle::Single) ==> resolved_format_settings(config).quote_style
            == FormatQuoteStyle::Single,
        config.quote_style == Some(QuoteStyle::Double) ==> resolved_format_settings(config).quote_style
            == FormatQuoteStyle::Double,
        config.quote_style is None ==> resolved_format_settings(config).quote_style
            == FormatQuoteStyle::Double,
        resolved_format_settings(config).quote_style != FormatQuoteStyle::Preserve,
        config.line_ending == Some(LineEnding::LineFeed) ==> resolved_format_settings(config).line_ending
            == FormatLineEnding::LineFeed,
        config.line_ending == Some(LineEnding::CarriageReturnLineFeed) ==> resolved_format_settings(
            config,
        ).line_ending == FormatLineEnding::CarriageReturnLineFeed,
        config.line_ending is None ==> resolved_format_settings(config).line_ending
            == FormatLineEnding::LineFeed,
        resolved_format_settings(config).line_ending != FormatLineEnding::CarriageReturn,
        config.indent_style is Some ==> resolved_format_settings(config).indent_style
            == config.indent_style->0,
        config.indent_style is None ==> resolved_format_settings(config).indent_style == IndentStyle::Space,
        (config.line_length matches Some(l) && l != 0) ==> resolved_format_settings(config).line_width
            == config.line_length->0,
        (config.indent_width matches Some(w) && w != 0) ==> resolved_format_settings(config).indent_width
            == config.indent_width->0,
        config.preview == Some(true) <==> resolved_format_settings(config).preview == PreviewMode::Enabled,
        config.skip_magic_trailing_comma == Some(false) <==> resolved_format_settings(
            config,
        ).magic_trailing_comma == MagicTrailingComma::Ignore,
{
}

/// A format request without a range is answered by what Ruff's formatter gives for the
/// file's decoded text: Ruff's error as it is, the new text's bytes, or nothing when Ruff
/// gives the text back unchanged; bytes that are not UTF-8 are refused with the decoding
/// error. Nothing is answered only for a range or for text Ruff leaves as it is.
pub proof fn law_format_response_follows_ruff(
    path: Seq<char>,
    bytes: Seq<u8>,
    has_range: bool,
    config: ConfigurationView,
    error: Seq<char>,
    code: Seq<char>,
)
    ensures
        !has_range && valid_utf8(bytes) && ruff_formatted(
            path,
            decode_utf8(bytes),
            resolved_format_settings(config),
        ) == Err::<Seq<char>, Seq<char>>(error) ==> format_response(path, bytes, has_range, config)
            == Err::<Option<Seq<u8>>, Seq<char>>(error),
        !has_range && valid_utf8(bytes) && ruff_formatted(
            path,
            decode_utf8(bytes),
            resolved_format_settings(config),
        ) == Ok::<Seq<char>, Seq<char>>(code) && code != decode_utf8(bytes) ==> format_response(
            path,
            bytes,
            has_range,
            config,
        ) == Ok::<Option<Seq<u8>>, Seq<char>>(Some(encode_utf8(code))),
        !has_range && !valid_utf8(bytes) ==> format_response(path, bytes, has_range, config) == Err::<
            Option<Seq<u8>>,
            Seq<char>,
        >(utf8_error_text(bytes)),
        format_response(path, bytes, has_range, config) == Ok::<Option<Seq<u8>>, Seq<char>>(None)
            ==> has_range || (valid_utf8(bytes) && ruff_formatted(
            path,
            decode_utf8(bytes),
            resolved_format_settings(config),
        ) == Ok::<Seq<char>, Seq<char>>(decode_utf8(bytes))),
{
}

} // verus!
