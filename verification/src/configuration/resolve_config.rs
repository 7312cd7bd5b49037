use vstd::prelude::*;

use super::config_map::{
    diagnostics_view, has_key, keys_distinct, lemma_lookup_without_others,
    lemma_without_keys_distinct, lookup, without_key, without_keys, ConfigEntries, ConfigKeyMap,
    ConfigKeyValue, ConfigurationDiagnostic, DiagnosticView, GlobalConfiguration, NewLineKind,
    ResolveConfigurationResult,
};
use super::types::{
    ConfigScalar, Configuration, ConfigurationView, FixLintErrors, FixLintErrorsView, IndentStyle,
    LineEnding, QuoteStyle,
};
use crate::ruff_calls::{name_imports_parse, parse_name_imports};
use crate::std_calls::{i32_decimal, i32_to_string, usize_decimal, usize_to_string};

verus! {

// ---------------------------------------------------------------------------
// Reading one property
// ---------------------------------------------------------------------------

/// What reading a scalar property gives: nothing, a value, or a message for the property.
pub enum ValueOutcome<T> {
    Absent,
    Value(T),
    Invalid(Seq<char>),
}

pub open spec fn bool_text(b: bool) -> Seq<char> {
    if b {
        "true"@
    } else {
        "false"@
    }
}

/// The text a scalar value is read from; arrays and objects have none.
pub open spec fn scalar_text(v: ConfigKeyValue) -> Option<Seq<char>> {
    match v {
        ConfigKeyValue::Bool(b) => Some(bool_text(b)),
        ConfigKeyValue::Number(n) => Some(i32_decimal(n)),
        ConfigKeyValue::String(s) => Some(s@),
        _ => None,
    }
}

pub open spec fn unsupported_value_text() -> Seq<char> {
    "Arrays and objects are not supported for this value"@
}

/// Reading a property as a scalar: absent and null give nothing, arrays and objects are
/// refused, anything else is read from its text.
pub open spec fn scalar_outcome<T: ConfigScalar>(entry: Option<ConfigKeyValue>) -> ValueOutcome<T> {
    match entry {
        None => ValueOutcome::Absent,
        Some(ConfigKeyValue::Null) => ValueOutcome::Absent,
        Some(v) => match scalar_text(v) {
            None => ValueOutcome::Invalid(unsupported_value_text()),
            Some(t) => match T::spec_from_text(t) {
                Ok(x) => ValueOutcome::Value(x),
                Err(e) => ValueOutcome::Invalid(e),
            },
        },
    }
}

pub open spec fn outcome_value<T>(o: ValueOutcome<T>) -> Option<T> {
    match o {
        ValueOutcome::Value(x) => Some(x),
        _ => None,
    }
}

pub open spec fn outcome_diagnostics<T>(key: Seq<char>, o: ValueOutcome<T>) -> Seq<DiagnosticView> {
    match o {
        ValueOutcome::Invalid(message) => seq![(key, message)],
        _ => seq![],
    }
}

/// The value a scalar property of a map holds, if it holds a usable one.
pub open spec fn nullable_value<T: ConfigScalar>(m: ConfigEntries, key: Seq<char>) -> Option<T> {
    outcome_value(scalar_outcome::<T>(lookup(m, key)))
}

/// The problem reading a scalar property of a map, if there is one.
pub open spec fn nullable_value_diagnostics<T: ConfigScalar>(m: ConfigEntries, key: Seq<char>) -> Seq<
    DiagnosticView,
> {
    outcome_diagnostics(key, scalar_outcome::<T>(lookup(m, key)))
}

/// One diagnostic for each entry left over, in order.
pub open spec fn unknown_property_diagnostics(m: ConfigEntries) -> Seq<DiagnosticView> {
    m.map_values(|e: (Seq<char>, ConfigKeyValue)| (e.0, "Unknown property in configuration"@))
}

pub open spec fn object_value(entry: Option<ConfigKeyValue>) -> Option<ConfigKeyMap> {
    match entry {
        Some(ConfigKeyValue::Object(m)) => Some(m),
        _ => None,
    }
}

pub open spec fn object_diagnostics(key: Seq<char>, entry: Option<ConfigKeyValue>) -> Seq<DiagnosticView> {
    match entry {
        None => seq![],
        Some(ConfigKeyValue::Null) => seq![],
        Some(ConfigKeyValue::Object(_)) => seq![],
        Some(_) => seq![(key, "Expected an object."@)],
    }
}

fn diagnostic(property_name: &str, message: String) -> (d: ConfigurationDiagnostic)
    ensures
        d@ == (property_name@, message@),
{
    ConfigurationDiagnostic { property_name: String::from_str(property_name), message }
}

fn push_diagnostic(diagnostics: &mut Vec<ConfigurationDiagnostic>, d: ConfigurationDiagnostic)
    ensures
        diagnostics_view(final(diagnostics)@) == diagnostics_view(old(diagnostics)@).push(d@),
{
    diagnostics.push(d);
    assert(diagnostics_view(diagnostics@) =~= diagnostics_view(old(diagnostics)@).push(d@));
}

/// Takes a scalar property out of the map and reads it; a value that cannot be read
/// gives a diagnostic for the property and no value.
pub fn get_nullable_value<T: ConfigScalar>(
    config: &mut ConfigKeyMap,
    key: &str,
    diagnostics: &mut Vec<ConfigurationDiagnostic>,
) -> (value: Option<T>)
    ensures
        final(config)@ == without_key(old(config)@, key@),
        value == nullable_value::<T>(old(config)@, key@),
        diagnostics_view(final(diagnostics)@) == diagnostics_view(old(diagnostics)@)
            + nullable_value_diagnostics::<T>(old(config)@, key@),
{
    let ghost d0 = diagnostics_view(diagnostics@);
    match config.shift_remove(key) {
        None => {
            assert(d0 + seq![] =~= d0);
            None
        },
        Some(raw) => {
            let text = match raw {
                ConfigKeyValue::Bool(b) => {
                    if b {
                        String::from_str("true")
                    } else {
                        String::from_str("false")
                    }
                },
                ConfigKeyValue::Number(n) => i32_to_string(n),
                ConfigKeyValue::String(s) => s,
                ConfigKeyValue::Null => {
                    assert(d0 + seq![] =~= d0);
                    return None;
                },
                _ => {
                    let message = String::from_str(
                        "Arrays and objects are not supported for this value",
                    );
                    push_diagnostic(diagnostics, diagnostic(key, message));
                    assert(d0.push((key@, unsupported_value_text())) =~= d0 + seq![
                        (key@, unsupported_value_text()),
                    ]);
                    return None;
                },
            };
            match T::from_text(text.as_str()) {
                Ok(v) => {
                    assert(d0 + seq![] =~= d0);
                    Some(v)
                },
                Err(message) => {
                    let ghost m = message@;
                    push_diagnostic(diagnostics, diagnostic(key, message));
                    assert(d0.push((key@, m)) =~= d0 + seq![(key@, m)]);
                    None
                },
            }
        },
    }
}

/// Takes an object property out of the map; anything but an object, null or nothing
/// gives a diagnostic.
pub fn get_nullable_object(
    config: &mut ConfigKeyMap,
    key: &str,
    diagnostics: &mut Vec<ConfigurationDiagnostic>,
) -> (value: Option<ConfigKeyMap>)
    ensures
        final(config)@ == without_key(old(config)@, key@),
        value == object_value(lookup(old(config)@, key@)),
        diagnostics_view(final(diagnostics)@) == diagnostics_view(old(diagnostics)@)
            + object_diagnostics(key@, lookup(old(config)@, key@)),
{
    let ghost d0 = diagnostics_view(diagnostics@);
    match config.shift_remove(key) {
        Some(ConfigKeyValue::Object(value)) => {
            assert(d0 + seq![] =~= d0);
            Some(value)
        },
        Some(ConfigKeyValue::Null) | None => {
            assert(d0 + seq![] =~= d0);
            None
        },
        Some(_) => {
            push_diagnostic(diagnostics, diagnostic(key, String::from_str("Expected an object.")));
            assert(d0.push((key@, "Expected an object."@)) =~= d0 + seq![
                (key@, "Expected an object."@),
            ]);
            None
        },
    }
}

/// A diagnostic for each entry, saying the property is unknown, in the map's order.
pub fn get_unknown_property_diagnostics(config: ConfigKeyMap) -> (diagnostics: Vec<
    ConfigurationDiagnostic,
>)
    ensures
        diagnostics_view(diagnostics@) == unknown_property_diagnostics(config@),
{
    let ghost m = config@;
    let entries = config.into_entries();
    let mut diagnostics: Vec<ConfigurationDiagnostic> = Vec::new();
    let mut i: usize = 0;
    while i < entries.len()
        invariant
            0 <= i <= entries@.len(),
            entries@.map_values(|e: (String, ConfigKeyValue)| (e.0@, e.1)) == m,
            diagnostics_view(diagnostics@) == unknown_property_diagnostics(m.take(i as int)),
        decreases entries@.len() - i,
    {
        let d = ConfigurationDiagnostic {
            property_name: entries[i].0.clone(),
            message: String::from_str("Unknown property in configuration"),
        };
        let ghost before = diagnostics_view(diagnostics@);
        push_diagnostic(&mut diagnostics, d);
        assert(m[i as int].0 == entries@[i as int].0@);
        assert(unknown_property_diagnostics(m.take(i + 1)) =~= before.push(d@));
        i = i + 1;
    }
    assert(m.take(entries@.len() as int) =~= m);
    diagnostics
}

// ---------------------------------------------------------------------------
// Required imports
// ---------------------------------------------------------------------------

pub open spec fn indexed_property_text(index: int) -> Seq<char> {
    "requiredImports["@ + usize_decimal(index as usize) + "]"@
}

/// The strings of an array, in order; other elements are left out.
pub open spec fn array_strings(values: Seq<ConfigKeyValue>) -> Seq<Seq<char>>
    decreases values.len(),
{
    if values.len() == 0 {
        seq![]
    } else {
        let rest = array_strings(values.drop_last());
        match values.last() {
            ConfigKeyValue::String(s) => rest.push(s@),
            _ => rest,
        }
    }
}

/// A diagnostic for each element of an array that is not a string, by its position.
pub open spec fn array_diagnostics(values: Seq<ConfigKeyValue>) -> Seq<DiagnosticView>
    decreases values.len(),
{
    if values.len() == 0 {
        seq![]
    } else {
        let rest = array_diagnostics(values.drop_last());
        match values.last() {
            ConfigKeyValue::String(_) => rest,
            _ => rest.push((indexed_property_text(values.len() - 1), "Expected a string."@)),
        }
    }
}

/// A diagnostic for each import that Ruff does not read as an import statement, by its
/// position among the strings.
pub open spec fn import_diagnostics(imports: Seq<Seq<char>>) -> Seq<DiagnosticView>
    decreases imports.len(),
{
    if imports.len() == 0 {
        seq![]
    } else {
        let rest = import_diagnostics(imports.drop_last());
        match name_imports_parse(imports.last()) {
            Err(e) => rest.push(
                (indexed_property_text(imports.len() - 1), "Invalid import statement: "@ + e),
            ),
            Ok(_) => rest,
        }
    }
}

pub open spec fn required_imports_value(entry: Option<ConfigKeyValue>) -> Option<Seq<Seq<char>>> {
    match entry {
        Some(ConfigKeyValue::Array(values)) => Some(array_strings(values@)),
        _ => None,
    }
}

pub open spec fn required_imports_diagnostics(entry: Option<ConfigKeyValue>) -> Seq<DiagnosticView> {
    match entry {
        None => seq![],
        Some(ConfigKeyValue::Array(values)) => array_diagnostics(values@) + import_diagnostics(
            array_strings(values@),
        ),
        Some(_) => seq![("requiredImports"@, "Expected an array."@)],
    }
}

fn indexed_property(index: usize) -> (s: String)
    ensures
        s@ == indexed_property_text(index as int),
{
    let mut s = String::from_str("requiredImports[");
    let n = usize_to_string(index);
    s.append(n.as_str());
    s.append("]");
    s
}

/// Takes an array of strings out of the map: each element that is not a string gives a
/// diagnostic and is left out; anything but an array gives a diagnostic and no value.
fn get_nullable_vec(
    config: &mut ConfigKeyMap,
    key: &str,
    diagnostics: &mut Vec<ConfigurationDiagnostic>,
) -> (value: Option<Vec<String>>)
    ensures
        final(config)@ == without_key(old(config)@, key@),
        match value {
            Some(v) => required_imports_value(lookup(old(config)@, key@)) == Some(
                v@.map_values(|s: String| s@),
            ),
            None => required_imports_value(lookup(old(config)@, key@)) is None,
        },
        diagnostics_view(final(diagnostics)@) == diagnostics_view(old(diagnostics)@) + match lookup(
            old(config)@,
            key@,
        ) {
            None => seq![],
            Some(ConfigKeyValue::Array(values)) => array_diagnostics(values@),
            Some(_) => seq![(key@, "Expected an array."@)],
        },
{
    let ghost d0 = diagnostics_view(diagnostics@);
    match config.shift_remove(key) {
        Some(ConfigKeyValue::Array(values)) => {
            let mut result: Vec<String> = Vec::new();
            let mut i: usize = 0;
            while i < values.len()
                invariant
                    0 <= i <= values@.len(),
                    result@.map_values(|s: String| s@) == array_strings(values@.take(i as int)),
                    diagnostics_view(diagnostics@) == d0 + array_diagnostics(
                        values@.take(i as int),
                    ),
                decreases values@.len() - i,
            {
                let ghost before = values@.take(i as int);
                let ghost after = values@.take(i + 1);
                assert(after.drop_last() =~= before);
                assert(after.last() == values@[i as int]);
                match &values[i] {
                    ConfigKeyValue::String(s) => {
                        let ghost r0 = result@.map_values(|s: String| s@);
                        result.push(s.clone());
                        assert(result@.map_values(|s: String| s@) =~= r0.push(s@));
                    },
                    _ => {
                        let ghost dd = diagnostics_view(diagnostics@);
                        let property = indexed_property(i);
                        push_diagnostic(
                            diagnostics,
                            ConfigurationDiagnostic {
                                property_name: property,
                                message: String::from_str("Expected a string."),
                            },
                        );
                        assert(d0 + array_diagnostics(after) =~= dd.push(
                            (indexed_property_text(i as int), "Expected a string."@),
                        ));
                    },
                }
                i = i + 1;
            }
            assert(values@.take(values@.len() as int) =~= values@);
            Some(result)
        },
        None => {
            assert(d0 + seq![] =~= d0);
            None
        },
        Some(_) => {
            push_diagnostic(diagnostics, diagnostic(key, String::from_str("Expected an array.")));
            assert(d0.push((key@, "Expected an array."@)) =~= d0 + seq![
                (key@, "Expected an array."@),
            ]);
            None
        },
    }
}

/// Takes the required imports out of the map and checks that Ruff reads each as an import
/// statement.
fn get_nullable_required_imports(
    config: &mut ConfigKeyMap,
    diagnostics: &mut Vec<ConfigurationDiagnostic>,
) -> (value: Option<Vec<String>>)
    ensures
        final(config)@ == without_key(old(config)@, "requiredImports"@),
        match value {
            Some(v) => required_imports_value(lookup(old(config)@, "requiredImports"@)) == Some(
                v@.map_values(|s: String| s@),
            ),
            None => required_imports_value(lookup(old(config)@, "requiredImports"@)) is None,
        },
        diagnostics_view(final(diagnostics)@) == diagnostics_view(old(diagnostics)@)
            + required_imports_diagnostics(lookup(old(config)@, "requiredImports"@)),
{
    let ghost d0 = diagnostics_view(diagnostics@);
    let ghost entry = lookup(config@, "requiredImports"@);
    let required_imports = get_nullable_vec(config, "requiredImports", diagnostics);
    let ghost d1 = diagnostics_view(diagnostics@);
    match &required_imports {
        Some(imports) => {
            let ghost strs = imports@.map_values(|s: String| s@);
            let mut index: usize = 0;
            while index < imports.len()
                invariant
                    0 <= index <= imports@.len(),
                    strs == imports@.map_values(|s: String| s@),
                    diagnostics_view(diagnostics@) == d1 + import_diagnostics(
                        strs.take(index as int),
                    ),
                decreases imports@.len() - index,
            {
                let ghost before = strs.take(index as int);
                let ghost after = strs.take(index + 1);
                assert(after.drop_last() =~= before);
                assert(after.last() == imports@[index as int]@);
                match parse_name_imports(imports[index].as_str()) {
                    Ok(_) => {},
                    Err(error) => {
                        let ghost dd = diagnostics_view(diagnostics@);
                        let property = indexed_property(index);
                        let mut message = String::from_str("Invalid import statement: ");
                        message.append(error.as_str());
                        push_diagnostic(
                            diagnostics,
                            ConfigurationDiagnostic { property_name: property, message },
                        );
                        assert(d1 + import_diagnostics(after) =~= dd.push(
                            (
                                indexed_property_text(index as int),
                                "Invalid import statement: "@ + error@,
                            ),
                        ));
                    },
                }
                index = index + 1;
            }
            assert(strs.take(imports@.len() as int) =~= strs);
            assert(diagnostics_view(diagnostics@) =~= d0 + required_imports_diagnostics(entry));
        },
        None => {
            assert(diagnostics_view(diagnostics@) =~= d0 + required_imports_diagnostics(entry));
        },
    }
    required_imports
}

// ---------------------------------------------------------------------------
// The configuration as a whole
// ---------------------------------------------------------------------------

/// The properties of the `fixLintErrors` object, in the order they are read.
pub open spec fn lint_keys() -> Seq<Seq<char>> {
    seq!["unusedImport"@, "unsortedImports"@, "missingRequiredImport"@, "requiredImports"@]
}

/// The top-level properties, in the order they are read.
pub open spec fn config_keys() -> Seq<Seq<char>> {
    seq![
        "fixLintErrors"@,
        "lineLength"@,
        "indentWidth"@,
        "indentStyle"@,
        "lineEnding"@,
        "quoteStyle"@,
        "skipMagicTrailingComma"@,
        "preview"@,
    ]
}

pub open spec fn all_distinct(keys: Seq<Seq<char>>) -> bool {
    forall|i: int, j: int| 0 <= i < keys.len() && 0 <= j < keys.len() && i != j ==> keys[i] != keys[j]
}

pub proof fn lemma_lint_keys_distinct()
    ensures
        all_distinct(lint_keys()),
{
    reveal_strlit("unusedImport");
    reveal_strlit("unsortedImports");
    reveal_strlit("missingRequiredImport");
    reveal_strlit("requiredImports");
    let k = lint_keys();
    assert(k[0].len() == 12 && k[1].len() == 15 && k[2].len() == 21 && k[3].len() == 15);
    assert(k[1][0] != k[3][0]);
}

pub proof fn lemma_config_keys_distinct()
    ensures
        all_distinct(config_keys()),
{
    reveal_strlit("fixLintErrors");
    reveal_strlit("lineLength");
    reveal_strlit("indentWidth");
    reveal_strlit("indentStyle");
    reveal_strlit("lineEnding");
    reveal_strlit("quoteStyle");
    reveal_strlit("skipMagicTrailingComma");
    reveal_strlit("preview");
    let k = config_keys();
    assert(k[0].len() == 13 && k[1].len() == 10 && k[2].len() == 11 && k[3].len() == 11);
    assert(k[4].len() == 10 && k[5].len() == 10 && k[6].len() == 22 && k[7].len() == 7);
    assert(k[1][4] != k[4][4] && k[1][0] != k[5][0] && k[4][0] != k[5][0]);
    assert(k[2][6] != k[3][6]);
}

/// Reading the keys of a list in turn: the next key still holds what it held at the start.
pub proof fn lemma_next_key(m: ConfigEntries, keys: Seq<Seq<char>>, j: int)
    requires
        keys_distinct(m),
        all_distinct(keys),
        0 <= j < keys.len(),
    ensures
        lookup(without_keys(m, keys.take(j)), keys[j]) == lookup(m, keys[j]),
        without_key(without_keys(m, keys.take(j)), keys[j]) == without_keys(m, keys.take(j + 1)),
        keys_distinct(without_keys(m, keys.take(j))),
{
    assert(!keys.take(j).contains(keys[j])) by {
        if keys.take(j).contains(keys[j]) {
            let i = choose|i: int| 0 <= i < keys.take(j).len() && keys.take(j)[i] == keys[j];
            assert(keys[i] == keys[j]);
        }
    }
    lemma_lookup_without_others(m, keys.take(j), keys[j]);
    lemma_without_keys_distinct(m, keys.take(j));
    assert(keys.take(j + 1).drop_last() =~= keys.take(j));
}

/// The lint settings an object holds.
pub open spec fn resolved_fix_lint_errors(m: ConfigEntries) -> FixLintErrorsView {
    FixLintErrorsView {
        unused_import: nullable_value::<bool>(m, "unusedImport"@),
        unsorted_imports: nullable_value::<bool>(m, "unsortedImports"@),
        missing_required_import: nullable_value::<bool>(m, "missingRequiredImport"@),
        required_imports: required_imports_value(lookup(m, "requiredImports"@)),
    }
}

/// The problems with the lint settings an object holds, named as within the object.
pub open spec fn fix_lint_errors_own_diagnostics(m: ConfigEntries) -> Seq<DiagnosticView> {
    nullable_value_diagnostics::<bool>(m, "unusedImport"@) + nullable_value_diagnostics::<bool>(
        m,
        "unsortedImports"@,
    ) + nullable_value_diagnostics::<bool>(m, "missingRequiredImport"@)
        + required_imports_diagnostics(lookup(m, "requiredImports"@))
        + unknown_property_diagnostics(without_keys(m, lint_keys()))
}

/// A diagnostic of the `fixLintErrors` object, named from the top level.
pub open spec fn nested_diagnostic(d: DiagnosticView) -> DiagnosticView {
    ("fixLintErrors."@ + d.0, d.1)
}

/// The problems with the `fixLintErrors` property.
pub open spec fn fix_lint_errors_diagnostics(entry: Option<ConfigKeyValue>) -> Seq<DiagnosticView> {
    match entry {
        Some(ConfigKeyValue::Object(inner)) => fix_lint_errors_own_diagnostics(inner@).map_values(
            |d: DiagnosticView| nested_diagnostic(d),
        ),
        _ => object_diagnostics("fixLintErrors"@, entry),
    }
}

/// dprint's line width as a line length: widths beyond `u16::MAX` become `u16::MAX`.
pub open spec fn clamp_line_width(width: u32) -> u16 {
    if width > 65535 {
        65535
    } else {
        width as u16
    }
}

/// dprint's newline kind as a line ending; `auto` becomes a line feed.
pub open spec fn line_ending_of(kind: NewLineKind) -> LineEnding {
    match kind {
        NewLineKind::Auto => LineEnding::LineFeed,
        NewLineKind::LineFeed => LineEnding::LineFeed,
        NewLineKind::CarriageReturnLineFeed => LineEnding::CarriageReturnLineFeed,
    }
}

/// The first value if there is one, else the second.
pub open spec fn or_else<T>(first: Option<T>, second: Option<T>) -> Option<T> {
    match first {
        Some(x) => Some(x),
        None => second,
    }
}

/// The configuration that the plugin's properties and dprint's shared settings resolve to:
/// each setting comes from its property when that holds a usable value; line length,
/// indent width and line ending otherwise fall back to the shared settings.
pub open spec fn resolved_configuration(m: ConfigEntries, global: GlobalConfiguration) -> ConfigurationView {
    ConfigurationView {
        line_length: or_else(
            nullable_value::<u16>(m, "lineLength"@),
            match global.line_width {
                Some(w) => Some(clamp_line_width(w)),
                None => None,
            },
        ),
        indent_width: or_else(nullable_value::<u8>(m, "indentWidth"@), global.indent_width),
        indent_style: nullable_value::<IndentStyle>(m, "indentStyle"@),
        line_ending: or_else(
            nullable_value::<LineEnding>(m, "lineEnding"@),
            match global.new_line_kind {
                Some(k) => Some(line_ending_of(k)),
                None => None,
            },
        ),
        quote_style: nullable_value::<QuoteStyle>(m, "quoteStyle"@),
        skip_magic_trailing_comma: nullable_value::<bool>(m, "skipMagicTrailingComma"@),
        preview: nullable_value::<bool>(m, "preview"@),
        fix_lint_errors: match object_value(lookup(m, "fixLintErrors"@)) {
            Some(inner) => Some(resolved_fix_lint_errors(inner@)),
            None => None,
        },
    }
}

/// The problems found resolving the plugin's properties, in the order the properties are
/// read, then one for each property left unknown, in the order given.
pub open spec fn resolved_diagnostics(m: ConfigEntries) -> Seq<DiagnosticView> {
    fix_lint_errors_diagnostics(lookup(m, "fixLintErrors"@)) + nullable_value_diagnostics::<u16>(
        m,
        "lineLength"@,
    ) + nullable_value_diagnostics::<u8>(m, "indentWidth"@) + nullable_value_diagnostics::<
        IndentStyle,
    >(m, "indentStyle"@) + nullable_value_diagnostics::<LineEnding>(m, "lineEnding"@)
        + nullable_value_diagnostics::<QuoteStyle>(m, "quoteStyle"@)
        + nullable_value_diagnostics::<bool>(m, "skipMagicTrailingComma"@)
        + nullable_value_diagnostics::<bool>(m, "preview"@) + unknown_property_diagnostics(
        without_keys(m, config_keys()),
    )
}

fn append_diagnostics(
    diagnostics: &mut Vec<ConfigurationDiagnostic>,
    more: Vec<ConfigurationDiagnostic>,
)
    ensures
        diagnostics_view(final(diagnostics)@) == diagnostics_view(old(diagnostics)@)
            + diagnostics_view(more@),
{
    let mut more = more;
    let ghost m = more@;
    diagnostics.append(&mut more);
    assert(diagnostics_view(diagnostics@) =~= diagnostics_view(old(diagnostics)@) + diagnostics_view(m));
}

/// Resolves the properties of the `fixLintErrors` object.
fn resolve_fix_lint_errors(lint_config: ConfigKeyMap) -> (r: (FixLintErrors, Vec<ConfigurationDiagnostic>))
    ensures
        r.0@ == resolved_fix_lint_errors(lint_config@),
        diagnostics_view(r.1@) == fix_lint_errors_own_diagnostics(lint_config@),
{
    let ghost m = lint_config@;
    let ghost k = lint_keys();
    lint_config.distinct_keys();
    let mut lint_config = lint_config;
    let mut diagnostics: Vec<ConfigurationDiagnostic> = Vec::new();
    proof {
        lemma_lint_keys_distinct();
        assert(k.take(0) =~= Seq::<Seq<char>>::empty());
        lemma_next_key(m, k, 0);
    }
    let unused_import = get_nullable_value::<bool>(&mut lint_config, "unusedImport", &mut diagnostics);
    proof {
        lemma_next_key(m, k, 1);
    }
    let unsorted_imports = get_nullable_value::<bool>(
        &mut lint_config,
        "unsortedImports",
        &mut diagnostics,
    );
    proof {
        lemma_next_key(m, k, 2);
    }
    let missing_required_import = get_nullable_value::<bool>(
        &mut lint_config,
        "missingRequiredImport",
        &mut diagnostics,
    );
    proof {
        lemma_next_key(m, k, 3);
    }
    let required_imports = get_nullable_required_imports(&mut lint_config, &mut diagnostics);
    proof {
        assert(k.take(4) =~= k);
    }
    let resolved = FixLintErrors {
        unused_import,
        unsorted_imports,
        missing_required_import,
        required_imports,
    };
    let unknown = get_unknown_property_diagnostics(lint_config);
    append_diagnostics(&mut diagnostics, unknown);
    assert(diagnostics_view(diagnostics@) =~= fix_lint_errors_own_diagnostics(m));
    (resolved, diagnostics)
}

/// Adds the diagnostics of the `fixLintErrors` object, each property named from the top level.
fn append_nested_diagnostics(
    diagnostics: &mut Vec<ConfigurationDiagnostic>,
    nested: Vec<ConfigurationDiagnostic>,
)
    ensures
        diagnostics_view(final(diagnostics)@) == diagnostics_view(old(diagnostics)@)
            + diagnostics_view(nested@).map_values(|d: DiagnosticView| nested_diagnostic(d)),
{
    let ghost d0 = diagnostics_view(diagnostics@);
    let ghost n = diagnostics_view(nested@);
    let mut i: usize = 0;
    while i < nested.len()
        invariant
            0 <= i <= nested@.len(),
            n == diagnostics_view(nested@),
            diagnostics_view(diagnostics@) == d0 + n.take(i as int).map_values(
                |d: DiagnosticView| nested_diagnostic(d),
            ),
        decreases nested@.len() - i,
    {
        let mut property_name = String::from_str("fixLintErrors.");
        property_name.append(nested[i].property_name.as_str());
        let d = ConfigurationDiagnostic { property_name, message: nested[i].message.clone() };
        let ghost before = diagnostics_view(diagnostics@);
        push_diagnostic(diagnostics, d);
        assert(n[i as int] == nested@[i as int]@);
        assert(d0 + n.take(i + 1).map_values(|d: DiagnosticView| nested_diagnostic(d)) =~= before.push(
            d@,
        ));
        i = i + 1;
    }
    assert(n.take(nested@.len() as int) =~= n);
}

/// Resolves the plugin's properties against dprint's shared settings. Each property is read
/// once; problems become diagnostics, and properties the plugin does not know are reported.
pub fn resolve_config(
    config: ConfigKeyMap,
    global_config: &GlobalConfiguration,
) -> (result: ResolveConfigurationResult<Configuration>)
    ensures
        result.config@ == resolved_configuration(config@, *global_config),
        diagnostics_view(result.diagnostics@) == resolved_diagnostics(config@),
{
    let ghost m = config@;
    let ghost k = config_keys();
    config.distinct_keys();
    let mut diagnostics: Vec<ConfigurationDiagnostic> = Vec::new();
    let mut config = config;
    proof {
        lemma_config_keys_distinct();
        assert(k.take(0) =~= Seq::<Seq<char>>::empty());
        lemma_next_key(m, k, 0);
    }
    let fix_lint_errors = match get_nullable_object(&mut config, "fixLintErrors", &mut diagnostics) {
        Some(lint_config) => {
            let (resolved, nested) = resolve_fix_lint_errors(lint_config);
            append_nested_diagnostics(&mut diagnostics, nested);
            Some(resolved)
        },
        None => None,
    };
    proof {
        lemma_next_key(m, k, 1);
    }
    let line_length = match get_nullable_value::<u16>(&mut config, "lineLength", &mut diagnostics) {
        Some(v) => Some(v),
        None => match global_config.line_width {
            Some(w) => Some(
                if w > 65535 {
                    65535u16
                } else {
                    w as u16
                },
            ),
            None => None,
        },
    };
    proof {
        lemma_next_key(m, k, 2);
    }
    let indent_width = match get_nullable_value::<u8>(&mut config, "indentWidth", &mut diagnostics) {
        Some(v) => Some(v),
        None => global_config.indent_width,
    };
    proof {
        lemma_next_key(m, k, 3);
    }
    let indent_style = get_nullable_value::<IndentStyle>(&mut config, "indentStyle", &mut diagnostics);
    proof {
        lemma_next_key(m, k, 4);
    }
    let line_ending = match get_nullable_value::<LineEnding>(
        &mut config,
        "lineEnding",
        &mut diagnostics,
    ) {
        Some(v) => Some(v),
        None => match global_config.new_line_kind {
            Some(NewLineKind::Auto) | Some(NewLineKind::LineFeed) => Some(LineEnding::LineFeed),
            Some(NewLineKind::CarriageReturnLineFeed) => Some(LineEnding::CarriageReturnLineFeed),
            None => None,
        },
    };
    proof {
        lemma_next_key(m, k, 5);
    }
    let quote_style = get_nullable_value::<QuoteStyle>(&mut config, "quoteStyle", &mut diagnostics);
    proof {
        lemma_next_key(m, k, 6);
    }
    let skip_magic_trailing_comma = get_nullable_value::<bool>(
        &mut config,
        "skipMagicTrailingComma",
        &mut diagnostics,
    );
    proof {
        lemma_next_key(m, k, 7);
    }
    let preview = get_nullable_value::<bool>(&mut config, "preview", &mut diagnostics);
    proof {
        assert(k.take(8) =~= k);
    }
    let resolved_config = Configuration {
        line_length,
        indent_width,
        indent_style,
        line_ending,
        quote_style,
        skip_magic_trailing_comma,
        preview,
        fix_lint_errors,
    };
    let unknown = get_unknown_property_diagnostics(config);
    append_diagnostics(&mut diagnostics, unknown);
    assert(diagnostics_view(diagnostics@) =~= resolved_diagnostics(m));
    ResolveConfigurationResult { config: resolved_config, diagnostics }
}

} // verus!
