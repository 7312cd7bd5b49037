use dprint_plugin_ruff::configuration::{
    IndentStyle, LineEnding, NewLineKind, QuoteStyle,
    resolve_config, ConfigKeyMap, ConfigKeyValue, Configuration, GlobalConfiguration,
};
use dprint_plugin_ruff::format_text;

fn map(entries: Vec<(&str, ConfigKeyValue)>) -> ConfigKeyMap {
    let mut m = ConfigKeyMap::new();
    for (k, v) in entries {
        m.insert(k.to_string(), v);
    }
    m
}

#[test]
fn fix_lint_error_diagnostics_are_nested() {
    let config = map(vec![(
        "fixLintErrors",
        ConfigKeyValue::Object(map(vec![
            ("unusedImport", ConfigKeyValue::Object(ConfigKeyMap::new())),
            ("requiredImports", ConfigKeyValue::Object(ConfigKeyMap::new())),
        ])),
    )]);

    let result = resolve_config(config, &GlobalConfiguration::default());
    let diagnostic_property_names: Vec<_> = result
        .diagnostics
        .iter()
        .map(|diagnostic| diagnostic.property_name.as_str())
        .collect();

    assert_eq!(
        diagnostic_property_names,
        vec!["fixLintErrors.unusedImport", "fixLintErrors.requiredImports"]
    );
}

#[test]
fn global_line_width_is_clamped_and_respects_plugin_override() {
    let global_config = GlobalConfiguration {
        line_width: Some(80),
        ..Default::default()
    };

    assert_eq!(
        resolve_config(ConfigKeyMap::new(), &global_config).config.line_length,
        Some(80)
    );

    let oversized_global_config = GlobalConfiguration {
        line_width: Some(u32::MAX),
        ..Default::default()
    };
    assert_eq!(
        resolve_config(ConfigKeyMap::new(), &oversized_global_config)
            .config
            .line_length,
        Some(u16::MAX)
    );

    let plugin_config = map(vec![("lineLength", ConfigKeyValue::Number(100))]);
    assert_eq!(
        resolve_config(plugin_config, &global_config).config.line_length,
        Some(100)
    );
}

#[test]
fn should_fail_on_parse_error_js() {
    let config = Configuration::default();
    let err = format_text("./file.py", "$*&(#*$&#", &config).unwrap_err();
    assert_eq!(err, r#"Got unexpected token $ at byte range 0..1"#);
}

fn diagnostics_of(result: &dprint_plugin_ruff::configuration::ResolveConfigurationResult<Configuration>) -> Vec<(String, String)> {
    result
        .diagnostics
        .iter()
        .map(|d| (d.property_name.clone(), d.message.clone()))
        .collect()
}

fn pair(p: &str, m: &str) -> (String, String) {
    (p.to_string(), m.to_string())
}

#[test]
fn empty_configuration_takes_global_settings() {
    let global = GlobalConfiguration {
        line_width: Some(120),
        use_tabs: Some(true),
        indent_width: Some(2),
        new_line_kind: Some(NewLineKind::CarriageReturnLineFeed),
    };
    let result = resolve_config(ConfigKeyMap::new(), &global);
    assert!(result.diagnostics.is_empty());
    assert_eq!(result.config.line_length, Some(120));
    assert_eq!(result.config.indent_width, Some(2));
    assert_eq!(result.config.line_ending, Some(LineEnding::CarriageReturnLineFeed));
    assert_eq!(result.config.indent_style, None);
    assert_eq!(result.config.quote_style, None);
    assert_eq!(result.config.skip_magic_trailing_comma, None);
    assert_eq!(result.config.preview, None);
    assert!(result.config.fix_lint_errors.is_none());
}

#[test]
fn global_auto_new_line_kind_becomes_line_feed() {
    for kind in [NewLineKind::Auto, NewLineKind::LineFeed] {
        let global = GlobalConfiguration { new_line_kind: Some(kind), ..Default::default() };
        assert_eq!(
            resolve_config(ConfigKeyMap::new(), &global).config.line_ending,
            Some(LineEnding::LineFeed)
        );
    }
}

#[test]
fn global_line_width_at_the_limit_is_kept() {
    let global = GlobalConfiguration { line_width: Some(65535), ..Default::default() };
    assert_eq!(resolve_config(ConfigKeyMap::new(), &global).config.line_length, Some(65535));
    let global = GlobalConfiguration { line_width: Some(65536), ..Default::default() };
    assert_eq!(resolve_config(ConfigKeyMap::new(), &global).config.line_length, Some(65535));
}

#[test]
fn plugin_settings_are_read() {
    let config = map(vec![
        ("indentStyle", ConfigKeyValue::String("tab".to_string())),
        ("lineLength", ConfigKeyValue::String("90".to_string())),
        ("indentWidth", ConfigKeyValue::Number(8)),
        ("lineEnding", ConfigKeyValue::String("cr-lf".to_string())),
        ("quoteStyle", ConfigKeyValue::String("single".to_string())),
        ("skipMagicTrailingComma", ConfigKeyValue::Bool(true)),
        ("preview", ConfigKeyValue::String("false".to_string())),
    ]);
    let global = GlobalConfiguration {
        line_width: Some(40),
        indent_width: Some(1),
        new_line_kind: Some(NewLineKind::LineFeed),
        ..Default::default()
    };
    let result = resolve_config(config, &global);
    assert!(result.diagnostics.is_empty());
    assert_eq!(result.config.indent_style, Some(IndentStyle::Tab));
    assert_eq!(result.config.line_length, Some(90));
    assert_eq!(result.config.indent_width, Some(8));
    assert_eq!(result.config.line_ending, Some(LineEnding::CarriageReturnLineFeed));
    assert_eq!(result.config.quote_style, Some(QuoteStyle::Single));
    assert_eq!(result.config.skip_magic_trailing_comma, Some(true));
    assert_eq!(result.config.preview, Some(false));
}

#[test]
fn invalid_values_give_diagnostics_in_reading_order() {
    let config = map(vec![
        ("preview", ConfigKeyValue::String("yes".to_string())),
        ("lineLength", ConfigKeyValue::String("abc".to_string())),
        ("indentWidth", ConfigKeyValue::Number(300)),
        ("indentStyle", ConfigKeyValue::String("tabs".to_string())),
        ("lineEnding", ConfigKeyValue::Array(vec![])),
        ("quoteStyle", ConfigKeyValue::Bool(true)),
        ("skipMagicTrailingComma", ConfigKeyValue::Number(1)),
    ]);
    let global = GlobalConfiguration { line_width: Some(70), ..Default::default() };
    let result = resolve_config(config, &global);
    assert_eq!(
        diagnostics_of(&result),
        vec![
            pair("lineLength", "invalid digit found in string"),
            pair("indentWidth", "number too large to fit in target type"),
            pair("indentStyle", "Found invalid value 'tabs'."),
            pair("lineEnding", "Arrays and objects are not supported for this value"),
            pair("quoteStyle", "Found invalid value 'true'."),
            pair("skipMagicTrailingComma", "provided string was not `true` or `false`"),
            pair("preview", "provided string was not `true` or `false`"),
        ]
    );
    // An unreadable line length falls back to dprint's line width.
    assert_eq!(result.config.line_length, Some(70));
    assert_eq!(result.config.indent_style, None);
    assert_eq!(result.config.preview, None);
}

#[test]
fn null_values_read_as_absent() {
    let config = map(vec![
        ("lineLength", ConfigKeyValue::Null),
        ("preview", ConfigKeyValue::Null),
        ("fixLintErrors", ConfigKeyValue::Null),
    ]);
    let global = GlobalConfiguration { line_width: Some(100), ..Default::default() };
    let result = resolve_config(config, &global);
    assert!(result.diagnostics.is_empty());
    assert_eq!(result.config.line_length, Some(100));
    assert_eq!(result.config.preview, None);
    assert!(result.config.fix_lint_errors.is_none());
}

#[test]
fn unknown_properties_are_reported_in_order() {
    let config = map(vec![
        ("zeta", ConfigKeyValue::Bool(true)),
        ("lineLength", ConfigKeyValue::Number(80)),
        ("alpha", ConfigKeyValue::Null),
    ]);
    let result = resolve_config(config, &GlobalConfiguration::default());
    assert_eq!(
        diagnostics_of(&result),
        vec![
            pair("zeta", "Unknown property in configuration"),
            pair("alpha", "Unknown property in configuration"),
        ]
    );
    assert_eq!(result.config.line_length, Some(80));
}

#[test]
fn fix_lint_errors_must_be_an_object() {
    let config = map(vec![("fixLintErrors", ConfigKeyValue::Bool(true))]);
    let result = resolve_config(config, &GlobalConfiguration::default());
    assert_eq!(diagnostics_of(&result), vec![pair("fixLintErrors", "Expected an object.")]);
    assert!(result.config.fix_lint_errors.is_none());
}

#[test]
fn required_imports_are_checked() {
    let config = map(vec![(
        "fixLintErrors",
        ConfigKeyValue::Object(map(vec![
            ("unusedImport", ConfigKeyValue::Bool(true)),
            (
                "requiredImports",
                ConfigKeyValue::Array(vec![
                    ConfigKeyValue::String("from __future__ import annotations".to_string()),
                    ConfigKeyValue::Number(3),
                    ConfigKeyValue::String("not an import".to_string()),
                    ConfigKeyValue::String("import os; import sys".to_string()),
                ]),
            ),
            ("bar", ConfigKeyValue::Bool(false)),
        ])),
    )]);
    let result = resolve_config(config, &GlobalConfiguration::default());
    assert_eq!(
        diagnostics_of(&result),
        vec![
            pair("fixLintErrors.requiredImports[1]", "Expected a string."),
            pair(
                "fixLintErrors.requiredImports[1]",
                "Invalid import statement: Simple statements must be separated by newlines or semicolons at byte range 7..13"
            ),
            pair("fixLintErrors.requiredImports[2]", "Invalid import statement: Expected a single statement"),
            pair("fixLintErrors.bar", "Unknown property in configuration"),
        ]
    );
    let fix = result.config.fix_lint_errors.unwrap();
    assert_eq!(fix.unused_import, Some(true));
    assert_eq!(fix.unsorted_imports, None);
    assert_eq!(
        fix.required_imports,
        Some(vec![
            "from __future__ import annotations".to_string(),
            "not an import".to_string(),
            "import os; import sys".to_string(),
        ])
    );
}

#[test]
fn required_imports_must_be_an_array() {
    let config = map(vec![(
        "fixLintErrors",
        ConfigKeyValue::Object(map(vec![("requiredImports", ConfigKeyValue::Null)])),
    )]);
    let result = resolve_config(config, &GlobalConfiguration::default());
    assert_eq!(
        diagnostics_of(&result),
        vec![pair("fixLintErrors.requiredImports", "Expected an array.")]
    );
    assert!(result.config.fix_lint_errors.unwrap().required_imports.is_none());
}

#[test]
fn config_key_map_keeps_insertion_order_and_replaces_in_place() {
    let mut m = ConfigKeyMap::new();
    assert!(m.insert("a".to_string(), ConfigKeyValue::Number(1)).is_none());
    assert!(m.insert("b".to_string(), ConfigKeyValue::Number(2)).is_none());
    assert!(matches!(m.insert("a".to_string(), ConfigKeyValue::Number(3)), Some(ConfigKeyValue::Number(1))));
    assert_eq!(m.len(), 2);
    assert!(matches!(m.shift_remove("a"), Some(ConfigKeyValue::Number(3))));
    assert!(m.shift_remove("a").is_none());
    let entries = m.into_entries();
    assert_eq!(entries.len(), 1);
    assert_eq!(entries[0].0, "b");
}

#[test]
fn setting_names_read_back() {
    for style in [IndentStyle::Tab, IndentStyle::Space] {
        assert_eq!(IndentStyle::parse(style.as_str()).ok(), Some(style));
        assert_eq!(style.to_string(), style.as_str());
    }
    for ending in [LineEnding::LineFeed, LineEnding::CarriageReturnLineFeed] {
        assert_eq!(LineEnding::parse(ending.as_str()).ok(), Some(ending));
    }
    for style in [QuoteStyle::Single, QuoteStyle::Double] {
        assert_eq!(QuoteStyle::parse(style.as_str()).ok(), Some(style));
    }
    assert_eq!(LineEnding::CarriageReturnLineFeed.as_str(), "cr-lf");
    let err = QuoteStyle::parse("Double").err().unwrap();
    assert_eq!(err.0, "Double");
    assert_eq!(err.message(), "Found invalid value 'Double'.");
}

#[test]
fn test_specs() {
    let global_config = GlobalConfiguration::default();
    let cases: Vec<(Vec<(&str, ConfigKeyValue)>, &str, &str)> = vec![
        (vec![], "print(  \"Hi!\")\n", "print(\"Hi!\")\n"),
        (
            vec![("quoteStyle", ConfigKeyValue::String("single".to_string()))],
            "print(\"Hi!\")\n",
            "print('Hi!')\n",
        ),
        (
            vec![("indentWidth", ConfigKeyValue::Number(2))],
            "def f():\n        return 1\n",
            "def f():\n  return 1\n",
        ),
        (vec![], "x = 1\n", "x = 1\n"),
    ];
    for (spec_config, file_text, expected) in cases {
        let config_result = resolve_config(map(spec_config), &global_config);
        assert!(config_result.diagnostics.is_empty());
        let formatted = format_text("file.py", file_text, &config_result.config)
            .unwrap()
            .unwrap_or_else(|| file_text.to_string());
        assert_eq!(formatted, expected);
        // formatting a second time leaves the text as it is
        assert_eq!(format_text("file.py", &formatted, &config_result.config), Ok(None));
    }
}

#[test]
fn unsigned_numbers_read_by_their_decimal_grammar() {
    let global = GlobalConfiguration::default();
    let read = |value: ConfigKeyValue| resolve_config(map(vec![("lineLength", value)]), &global);
    assert_eq!(read(ConfigKeyValue::Number(100)).config.line_length, Some(100));
    assert_eq!(read(ConfigKeyValue::String("+7".to_string())).config.line_length, Some(7));
    assert_eq!(read(ConfigKeyValue::String("007".to_string())).config.line_length, Some(7));
    assert_eq!(read(ConfigKeyValue::Number(65535)).config.line_length, Some(65535));
    let result = read(ConfigKeyValue::Number(-1));
    assert_eq!(result.config.line_length, None);
    assert_eq!(diagnostics_of(&result), vec![pair("lineLength", "invalid digit found in string")]);
    let result = read(ConfigKeyValue::Number(65536));
    assert_eq!(diagnostics_of(&result), vec![pair("lineLength", "number too large to fit in target type")]);
    let result = read(ConfigKeyValue::String(String::new()));
    assert_eq!(diagnostics_of(&result), vec![pair("lineLength", "cannot parse integer from empty string")]);
    let result = read(ConfigKeyValue::String("+".to_string()));
    assert_eq!(result.config.line_length, None);
}
