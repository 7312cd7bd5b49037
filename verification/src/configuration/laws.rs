//! What holds of configuration resolution for every input.
use vstd::prelude::*;

use super::config_map::{
    has_key, keys_distinct, lemma_lookup_without_others, lemma_without_keys_absent, lookup,
    without_keys, ConfigEntries, ConfigKeyMap, ConfigKeyValue, DiagnosticView,
    GlobalConfiguration, NewLineKind,
};
use super::resolve_config::{
    clamp_line_width, config_keys, fix_lint_errors_diagnostics, nested_diagnostic,
    nullable_value, resolved_configuration, resolved_diagnostics, scalar_outcome,
    unknown_property_diagnostics, ValueOutcome,
};
use super::types::{ConfigScalar, IndentStyle, LineEnding, QuoteStyle};
use crate::std_calls::{
    digit_char, digit_value, digits_value, i32_decimal, is_digit, nat_decimal, unsigned_text_value,
};

verus! {

/// A line length that the plugin's own property gives wins over dprint's line width.
pub proof fn law_plugin_line_length_wins(m: ConfigEntries, global: GlobalConfiguration, length: u16)
    requires
        nullable_value::<u16>(m, "lineLength"@) == Some(length),
    ensures
        resolved_configuration(m, global).line_length == Some(length),
{
}

/// Without a line length of the plugin's own, dprint's line width is used, clamped to
/// `u16::MAX`.
pub proof fn law_global_line_width_clamped(m: ConfigEntries, global: GlobalConfiguration, width: u32)
    requires
        lookup(m, "lineLength"@) is None,
        global.line_width == Some(width),
    ensures
        resolved_configuration(m, global).line_length == Some(
            if width > 65535 {
                65535u16
            } else {
                width as u16
            },
        ),
        clamp_line_width(width) <= width,
{
}

/// A property set to null reads exactly as an absent one: no value, no diagnostic.
pub proof fn law_null_reads_as_absent<T: ConfigScalar>()
    ensures
        scalar_outcome::<T>(Some(ConfigKeyValue::Null)) == scalar_outcome::<T>(None),
        scalar_outcome::<T>(None) == ValueOutcome::<T>::Absent,
{
}

/// Every diagnostic about the inside of the `fixLintErrors` object names its property
/// below `fixLintErrors.`.
pub proof fn law_lint_diagnostics_are_nested(entry: Option<ConfigKeyValue>, i: int)
    requires
        entry matches Some(ConfigKeyValue::Object(_)),
        0 <= i < fix_lint_errors_diagnostics(entry).len(),
    ensures
        fix_lint_errors_diagnostics(entry)[i].0.take(14) == "fixLintErrors."@,
{
    reveal_strlit("fixLintErrors.");
    let d = fix_lint_errors_diagnostics(entry)[i];
    match entry {
        Some(ConfigKeyValue::Object(inner)) => {
            let own = super::resolve_config::fix_lint_errors_own_diagnostics(inner@);
            assert(d == nested_diagnostic(own[i]));
            assert(("fixLintErrors."@ + own[i].0).take(14) =~= "fixLintErrors."@);
        },
        _ => {},
    }
}

/// Each property the plugin does not know is reported, once, as unknown.
pub proof fn law_unknown_property_reported(m: ConfigEntries, key: Seq<char>)
    requires
        keys_distinct(m),
        has_key(m, key),
        !config_keys().contains(key),
    ensures
        resolved_diagnostics(m).contains((key, "Unknown property in configuration"@)),
{
    let rest = without_keys(m, config_keys());
    lemma_lookup_without_others(m, config_keys(), key);
    let j = choose|j: int| 0 <= j < rest.len() && rest[j].0 == key;
    let unknown = unknown_property_diagnostics(rest);
    assert(unknown[j] == (key, "Unknown property in configuration"@));
    let all = resolved_diagnostics(m);
    let offset = all.len() - unknown.len();
    assert(all[offset + j] == unknown[j]);
}

/// A property the plugin knows is never reported as unknown.
pub proof fn law_known_property_not_reported(m: ConfigEntries, key: Seq<char>, message: Seq<char>)
    requires
        keys_distinct(m),
        config_keys().contains(key),
    ensures
        !unknown_property_diagnostics(without_keys(m, config_keys())).contains((key, message)),
{
    lemma_without_keys_absent(m, config_keys(), key);
    let rest = without_keys(m, config_keys());
    if unknown_property_diagnostics(rest).contains((key, message)) {
        let j = choose|j: int|
            0 <= j < unknown_property_diagnostics(rest).len() && unknown_property_diagnostics(
                rest,
            )[j] == (key, message);
        assert(rest[j].0 == key);
    }
}

/// Without properties of its own, the plugin reports nothing and takes what dprint shares.
pub proof fn law_empty_configuration(global: GlobalConfiguration)
    ensures
        resolved_diagnostics(Seq::empty()) == Seq::<DiagnosticView>::empty(),
        resolved_configuration(Seq::empty(), global).line_length == match global.line_width {
            Some(w) => Some(clamp_line_width(w)),
            None => None,
        },
        resolved_configuration(Seq::empty(), global).indent_width == global.indent_width,
        resolved_configuration(Seq::empty(), global).indent_style is None,
        resolved_configuration(Seq::empty(), global).quote_style is None,
        resolved_configuration(Seq::empty(), global).fix_lint_errors is None,
{
    let m = Seq::<(Seq<char>, ConfigKeyValue)>::empty();
    lemma_without_keys_of_empty(config_keys());
    assert(unknown_property_diagnostics(without_keys(m, config_keys())) =~= Seq::empty());
    assert(resolved_diagnostics(m) =~= Seq::<DiagnosticView>::empty());
}

proof fn lemma_without_keys_of_empty(keys: Seq<Seq<char>>)
    ensures
        without_keys(Seq::empty(), keys) == Seq::<(Seq<char>, ConfigKeyValue)>::empty(),
    decreases keys.len(),
{
    if keys.len() > 0 {
        lemma_without_keys_of_empty(keys.drop_last());
    }
}

/// A style's name reads back as the style, and only names are read as styles.
pub proof fn law_indent_style_names(style: IndentStyle, text: Seq<char>)
    ensures
        IndentStyle::spec_parse(style.spec_name()) == Some(style),
        IndentStyle::spec_parse(text) matches Some(s) ==> s.spec_name() == text,
{
    reveal_strlit("tab");
    reveal_strlit("space");
    assert("tab"@.len() != "space"@.len());
}

/// A line ending's name reads back as the line ending, and only names are read as line
/// endings.
pub proof fn law_line_ending_names(ending: LineEnding, text: Seq<char>)
    ensures
        LineEnding::spec_parse(ending.spec_name()) == Some(ending),
        LineEnding::spec_parse(text) matches Some(e) ==> e.spec_name() == text,
{
    reveal_strlit("lf");
    reveal_strlit("cr-lf");
    assert("lf"@.len() != "cr-lf"@.len());
}

/// A quote style's name reads back as the quote style, and only names are read as quote
/// styles.
pub proof fn law_quote_style_names(style: QuoteStyle, text: Seq<char>)
    ensures
        QuoteStyle::spec_parse(style.spec_name()) == Some(style),
        QuoteStyle::spec_parse(text) matches Some(s) ==> s.spec_name() == text,
{
    reveal_strlit("single");
    reveal_strlit("double");
    assert("single"@[0] != "double"@[0]);
}

proof fn lemma_digit(d: nat)
    requires
        d < 10,
    ensures
        is_digit(digit_char(d)),
        digit_value(digit_char(d)) == d,
{
    let digits = seq!['0', '1', '2', '3', '4', '5', '6', '7', '8', '9'];
    assert(digit_char(d) == digits[d as int]);
    if d == 0 {
        assert(digits[0] == '0');
    } else if d == 1 {
        assert(digits[1] == '1');
    } else if d == 2 {
        assert(digits[2] == '2');
    } else if d == 3 {
        assert(digits[3] == '3');
    } else if d == 4 {
        assert(digits[4] == '4');
    } else if d == 5 {
        assert(digits[5] == '5');
    } else if d == 6 {
        assert(digits[6] == '6');
    } else if d == 7 {
        assert(digits[7] == '7');
    } else if d == 8 {
        assert(digits[8] == '8');
    } else {
        assert(digits[9] == '9');
    }
}

proof fn lemma_decimal_reads_back(n: nat)
    ensures
        nat_decimal(n).len() > 0,
        is_digit(nat_decimal(n)[0]),
        digits_value(nat_decimal(n)) == Some(n),
    decreases n,
{
    if n < 10 {
        lemma_digit(n);
    } else {
        lemma_decimal_reads_back(n / 10);
        lemma_digit(n % 10);
        let t = nat_decimal(n);
        assert(t.drop_last() =~= nat_decimal(n / 10));
        assert(t[0] == nat_decimal(n / 10)[0]);
        assert(n == (n / 10) * 10 + n % 10);
    }
}

proof fn lemma_non_digit_refused(text: Seq<char>, i: int)
    requires
        0 <= i < text.len(),
        !is_digit(text[i]),
    ensures
        digits_value(text) is None,
    decreases text.len(),
{
    if i < text.len() - 1 {
        assert(text.drop_last()[i] == text[i]);
        lemma_non_digit_refused(text.drop_last(), i);
    }
}

proof fn lemma_number_text_value(n: i32)
    ensures
        n >= 0 ==> unsigned_text_value(i32_decimal(n)) == Some(n as nat),
        n < 0 ==> unsigned_text_value(i32_decimal(n)) is None,
{
    if n >= 0 {
        lemma_decimal_reads_back(n as nat);
    } else {
        let t = i32_decimal(n);
        assert(t[0] == '-');
        lemma_non_digit_refused(t, 0);
    }
}

/// A number given for an unsigned property reads as that number when it fits the property's
/// type, and is refused otherwise (a negative number included).
pub proof fn law_numbers_read_as_themselves(n: i32)
    ensures
        0 <= n <= 65535 ==> scalar_outcome::<u16>(Some(ConfigKeyValue::Number(n)))
            == ValueOutcome::Value(n as u16),
        (n < 0 || n > 65535) ==> scalar_outcome::<u16>(Some(ConfigKeyValue::Number(n))) is Invalid,
        0 <= n <= 255 ==> scalar_outcome::<u8>(Some(ConfigKeyValue::Number(n)))
            == ValueOutcome::Value(n as u8),
        (n < 0 || n > 255) ==> scalar_outcome::<u8>(Some(ConfigKeyValue::Number(n))) is Invalid,
{
    lemma_number_text_value(n);
}

proof fn lemma_bool_value(b: bool)
    ensures
        scalar_outcome::<bool>(Some(ConfigKeyValue::Bool(b))) == ValueOutcome::Value(b),
{
    reveal_strlit("true");
    reveal_strlit("false");
    assert("true"@.len() != "false"@.len());
}

/// A line ending the plugin's own property names wins over dprint's newline kind.
pub proof fn law_plugin_line_ending_wins(
    m: ConfigEntries,
    global: GlobalConfiguration,
    ending: LineEnding,
    name: String,
)
    requires
        lookup(m, "lineEnding"@) == Some(ConfigKeyValue::String(name)),
        name@ == ending.spec_name(),
    ensures
        resolved_configuration(m, global).line_ending == Some(ending),
{
    law_line_ending_names(ending, name@);
}

/// Without a line ending of the plugin's own, dprint's newline kind gives it: `crlf` a
/// carriage return and line feed, `lf` and `auto` a line feed.
pub proof fn law_line_ending_falls_back(m: ConfigEntries, global: GlobalConfiguration)
    requires
        lookup(m, "lineEnding"@) is None || lookup(m, "lineEnding"@) == Some(ConfigKeyValue::Null),
    ensures
        resolved_configuration(m, global).line_ending == match global.new_line_kind {
            Some(NewLineKind::CarriageReturnLineFeed) => Some(LineEnding::CarriageReturnLineFeed),
            Some(_) => Some(LineEnding::LineFeed),
            None => None::<LineEnding>,
        },
{
}

/// A number the plugin's own line length or indent width holds, when it fits, is that
/// setting, whatever dprint shares.
pub proof fn law_plugin_numbers_win(m: ConfigEntries, global: GlobalConfiguration, n: i32)
    ensures
        lookup(m, "lineLength"@) == Some(ConfigKeyValue::Number(n)) && 0 <= n <= 65535
            ==> resolved_configuration(m, global).line_length == Some(n as u16),
        lookup(m, "indentWidth"@) == Some(ConfigKeyValue::Number(n)) && 0 <= n <= 255
            ==> resolved_configuration(m, global).indent_width == Some(n as u8),
{
    law_numbers_read_as_themselves(n);
}

/// Without an indent width of the plugin's own, dprint's indent width is used.
pub proof fn law_indent_width_falls_back(m: ConfigEntries, global: GlobalConfiguration)
    requires
        lookup(m, "indentWidth"@) is None || lookup(m, "indentWidth"@) == Some(ConfigKeyValue::Null),
    ensures
        resolved_configuration(m, global).indent_width == global.indent_width,
{
}

/// The styles and switches are read from their own properties: a name gives its style, a
/// boolean its value, whatever dprint shares and whatever the other properties hold.
pub proof fn law_styles_and_switches_read(
    m: ConfigEntries,
    global: GlobalConfiguration,
    indent: IndentStyle,
    quote: QuoteStyle,
    name: String,
    b: bool,
)
    ensures
        lookup(m, "indentStyle"@) == Some(ConfigKeyValue::String(name)) && name@ == indent.spec_name()
            ==> resolved_configuration(m, global).indent_style == Some(indent),
        lookup(m, "quoteStyle"@) == Some(ConfigKeyValue::String(name)) && name@ == quote.spec_name()
            ==> resolved_configuration(m, global).quote_style == Some(quote),
        lookup(m, "skipMagicTrailingComma"@) == Some(ConfigKeyValue::Bool(b))
            ==> resolved_configuration(m, global).skip_magic_trailing_comma == Some(b),
        lookup(m, "preview"@) == Some(ConfigKeyValue::Bool(b))
            ==> resolved_configuration(m, global).preview == Some(b),
        lookup(m, "indentStyle"@) is None ==> resolved_configuration(m, global).indent_style is None,
        lookup(m, "quoteStyle"@) is None ==> resolved_configuration(m, global).quote_style is None,
        lookup(m, "skipMagicTrailingComma"@) is None
            ==> resolved_configuration(m, global).skip_magic_trailing_comma is None,
        lookup(m, "preview"@) is None ==> resolved_configuration(m, global).preview is None,
{
    law_indent_style_names(indent, name@);
    law_quote_style_names(quote, name@);
    lemma_bool_value(b);
}

/// Each lint flag is read from its own property of the `fixLintErrors` object: a boolean
/// there is the flag, whatever the other flags hold, and an absent property leaves it unset.
pub proof fn law_lint_flags_read_from_own_properties(
    m: ConfigEntries,
    global: GlobalConfiguration,
    inner: ConfigKeyMap,
    b: bool,
)
    requires
        lookup(m, "fixLintErrors"@) == Some(ConfigKeyValue::Object(inner)),
    ensures
        resolved_configuration(m, global).fix_lint_errors is Some,
        lookup(inner@, "unusedImport"@) == Some(ConfigKeyValue::Bool(b)) ==> resolved_configuration(m, global).fix_lint_errors->0.unused_import == Some(b),
        lookup(inner@, "unsortedImports"@) == Some(ConfigKeyValue::Bool(b)) ==> resolved_configuration(m, global).fix_lint_errors->0.unsorted_imports == Some(b),
        lookup(inner@, "missingRequiredImport"@) == Some(ConfigKeyValue::Bool(b))
            ==> resolved_configuration(m, global).fix_lint_errors->0.missing_required_import == Some(b),
        lookup(inner@, "unusedImport"@) is None ==> resolved_configuration(m, global).fix_lint_errors->0.unused_import is None,
        lookup(inner@, "unsortedImports"@) is None ==> resolved_configuration(m, global).fix_lint_errors->0.unsorted_imports is None,
        lookup(inner@, "missingRequiredImport"@) is None ==> resolved_configuration(m, global).fix_lint_errors->0.missing_required_import is None,
        lookup(inner@, "requiredImports"@) is None ==> resolved_configuration(m, global).fix_lint_errors->0.required_imports is None,
{
    lemma_bool_value(b);
}

/// A `fixLintErrors` property that is absent or null leaves every lint flag unset.
pub proof fn law_no_lint_object(m: ConfigEntries, global: GlobalConfiguration)
    requires
        lookup(m, "fixLintErrors"@) is None || lookup(m, "fixLintErrors"@) == Some(ConfigKeyValue::Null),
    ensures
        resolved_configuration(m, global).fix_lint_errors is None,
{
}

} // verus!
