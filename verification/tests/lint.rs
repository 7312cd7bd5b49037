use dprint_plugin_ruff::configuration::{Configuration, FixLintErrors};
use dprint_plugin_ruff::lint::{
    apply_lint_fixes, resolve_enabled_rules, resolve_linter_settings, resolve_required_imports, LintRule,
    RequiredImport,
};

fn lint_config(
    unused_import: Option<bool>,
    unsorted_imports: Option<bool>,
    missing_required_import: Option<bool>,
    required_imports: Option<Vec<&str>>,
) -> Configuration {
    let mut config = Configuration::default();
    config.fix_lint_errors = Some(FixLintErrors {
        unused_import,
        unsorted_imports,
        missing_required_import,
        required_imports: required_imports.map(|v| v.into_iter().map(|s| s.to_string()).collect()),
    });
    config
}

#[test]
fn rules_follow_their_flags() {
    assert!(resolve_enabled_rules(&Configuration::default()).is_empty());
    let config = lint_config(Some(true), Some(false), Some(true), None);
    assert_eq!(
        resolve_enabled_rules(&config),
        vec![LintRule::UnusedImport, LintRule::MissingRequiredImport]
    );
    let config = lint_config(None, Some(true), None, None);
    assert_eq!(resolve_enabled_rules(&config), vec![LintRule::UnsortedImports]);
}

#[test]
fn no_rules_means_no_change() {
    let config = lint_config(Some(false), None, None, Some(vec!["not an import"]));
    assert_eq!(apply_lint_fixes("./a.py", "import os\n", &config), Ok(None));
}

#[test]
fn enabled_fixes_are_applied() {
    let config = lint_config(
        Some(true),
        Some(true),
        Some(true),
        Some(vec!["from __future__ import annotations"]),
    );
    assert_eq!(
        apply_lint_fixes("./a.py", "import sys\nimport os\nprint(os)\n", &config),
        Ok(Some("from __future__ import annotations\n\nimport os\n\nprint(os)\n".to_string()))
    );
}

#[test]
fn clean_source_is_reported_unchanged() {
    let config = lint_config(Some(true), None, None, None);
    assert_eq!(apply_lint_fixes("./a.py", "import os\n\nprint(os)\n", &config), Ok(None));
}

#[test]
fn invalid_required_import_fails() {
    let config = lint_config(Some(true), None, None, Some(vec!["import os", "x = \"1\""]));
    assert_eq!(
        apply_lint_fixes("./a.py", "import os\n", &config),
        Err("Invalid required import \"x = \\\"1\\\"\": Expected an import statement".to_string())
    );
    assert_eq!(
        resolve_required_imports(&config).err(),
        Some("Invalid required import \"x = \\\"1\\\"\": Expected an import statement".to_string())
    );
}

fn import(name: &str, as_name: Option<&str>) -> RequiredImport {
    RequiredImport::Import { name: name.to_string(), as_name: as_name.map(|s| s.to_string()) }
}

fn import_from(module: Option<&str>, name: &str, as_name: Option<&str>, level: u32) -> RequiredImport {
    RequiredImport::ImportFrom {
        module: module.map(|s| s.to_string()),
        name: name.to_string(),
        as_name: as_name.map(|s| s.to_string()),
        level,
    }
}

#[test]
fn valid_required_imports_are_read() {
    let config = lint_config(None, None, None, Some(vec!["import os", "from a import b, c"]));
    assert_eq!(
        resolve_required_imports(&config).unwrap(),
        vec![import("os", None), import_from(Some("a"), "b", None, 0), import_from(Some("a"), "c", None, 0)]
    );
    assert_eq!(resolve_required_imports(&Configuration::default()).unwrap(), vec![]);
}

#[test]
fn required_imports_keep_aliases_and_levels() {
    let config = lint_config(None, None, None, Some(vec!["import numpy as np", "from ..pkg import x as y", "from . import z"]));
    assert_eq!(
        resolve_required_imports(&config).unwrap(),
        vec![
            import("numpy", Some("np")),
            import_from(Some("pkg"), "x", Some("y"), 2),
            import_from(None, "z", None, 1),
        ]
    );
}

#[test]
fn required_imports_named_twice_appear_once() {
    let config = lint_config(None, None, None, Some(vec!["from a import b, c", "import os", "from a import c"]));
    assert_eq!(
        resolve_required_imports(&config).unwrap(),
        vec![import_from(Some("a"), "b", None, 0), import_from(Some("a"), "c", None, 0), import("os", None)]
    );
}

#[test]
fn linter_settings_follow_the_configuration() {
    let mut config = lint_config(Some(true), None, Some(true), Some(vec!["import os"]));
    config.preview = Some(true);
    config.line_length = Some(100);
    config.indent_width = Some(0);
    let rules = resolve_enabled_rules(&config);
    let settings = resolve_linter_settings(&config, &rules).unwrap();
    assert_eq!(settings.rules, vec![LintRule::UnusedImport, LintRule::MissingRequiredImport]);
    assert!(settings.preview);
    assert_eq!(settings.line_length, 100);
    assert_eq!(settings.tab_size, 4);
    assert_eq!(settings.required_imports, vec![import("os", None)]);

    let settings = resolve_linter_settings(&Configuration::default(), &vec![]).unwrap();
    assert!(settings.rules.is_empty());
    assert!(!settings.preview);
    assert_eq!(settings.line_length, 88);
    assert_eq!(settings.tab_size, 4);
    assert!(settings.required_imports.is_empty());
}

#[test]
fn linter_settings_refuse_an_invalid_import() {
    let config = lint_config(Some(true), None, None, Some(vec!["import"]));
    let rules = resolve_enabled_rules(&config);
    assert!(resolve_linter_settings(&config, &rules).err().unwrap().starts_with("Invalid required import \"import\": "));
}

#[test]
fn unused_import_is_removed_with_its_rule_alone() {
    let config = lint_config(Some(true), None, None, None);
    assert_eq!(
        apply_lint_fixes("./a.py", "import sys\nimport os\nprint(os)\n", &config),
        Ok(Some("import os\nprint(os)\n".to_string()))
    );
}
