use dprint_plugin_ruff::configuration::{Configuration, IndentStyle, LineEnding, QuoteStyle};
use dprint_plugin_ruff::format_text::{
    format_outcome, resolve_options, FormatLineEnding, FormatQuoteStyle, FormatSettings,
    MagicTrailingComma, PreviewMode,
};
use dprint_plugin_ruff::{format_text, initialize_ruff_linter};

#[test]
fn formats_python_source() {
    let config = Configuration::default();
    assert_eq!(
        format_text("./file.py", "x  =  [1,2,\n3]\n", &config),
        Ok(Some("x = [1, 2, 3]\n".to_string()))
    );
}

#[test]
fn formatted_source_is_reported_unchanged() {
    let config = Configuration::default();
    assert_eq!(format_text("./file.py", "x = [1, 2, 3]\n", &config), Ok(None));
}

#[test]
fn formatting_twice_changes_nothing() {
    let config = Configuration::default();
    let once = format_text("./file.py", "def f( a,b ):\n  return a+b\n", &config).unwrap().unwrap();
    assert_eq!(format_text("./file.py", &once, &config), Ok(None));
}

#[test]
fn indent_style_and_quote_style_are_applied() {
    let mut config = Configuration::default();
    config.indent_style = Some(IndentStyle::Tab);
    assert_eq!(
        format_text("./a.py", "if x:\n    y = 'a'\n", &config),
        Ok(Some("if x:\n\ty = \"a\"\n".to_string()))
    );
    config.quote_style = Some(QuoteStyle::Single);
    assert_eq!(
        format_text("./a.pyi", "def f(): ...\n\n\n\nx = \"a\"\n", &config),
        Ok(Some("def f(): ...\n\nx = 'a'\n".to_string()))
    );
}

#[test]
fn line_length_and_indent_width_are_applied() {
    let mut config = Configuration::default();
    config.line_length = Some(10);
    config.indent_width = Some(2);
    assert_eq!(
        format_text("./a.py", "x = [1, 2, 3, 4, 5]\n", &config),
        Ok(Some("x = [\n  1,\n  2,\n  3,\n  4,\n  5,\n]\n".to_string()))
    );
}

#[test]
fn zero_widths_leave_ruff_defaults() {
    let mut config = Configuration::default();
    config.line_length = Some(0);
    config.indent_width = Some(0);
    let settings = resolve_options(&config);
    assert_eq!(settings.line_width, 88);
    assert_eq!(settings.indent_width, 4);
    assert_eq!(format_text("./a.py", "x = [1, 2, 3, 4, 5]\n", &config), Ok(None));
}

#[test]
fn magic_trailing_comma_follows_the_setting() {
    let mut config = Configuration::default();
    config.skip_magic_trailing_comma = Some(true);
    assert_eq!(format_text("./a.py", "x = [\n    1,\n]\n", &config), Ok(None));
    config.skip_magic_trailing_comma = Some(false);
    assert_eq!(
        format_text("./a.py", "x = [\n    1,\n]\n", &config),
        Ok(Some("x = [1]\n".to_string()))
    );
}

#[test]
fn line_ending_is_applied() {
    let mut config = Configuration::default();
    config.line_ending = Some(LineEnding::CarriageReturnLineFeed);
    assert_eq!(
        format_text("./a.py", "x=1\ny=2\n", &config),
        Ok(Some("x = 1\r\ny = 2\r\n".to_string()))
    );
}

#[test]
fn default_settings_are_ruffs() {
    let settings = resolve_options(&Configuration::default());
    assert_eq!(
        settings,
        FormatSettings {
            indent_style: IndentStyle::Space,
            line_width: 88,
            indent_width: 4,
            line_ending: FormatLineEnding::LineFeed,
            quote_style: FormatQuoteStyle::Double,
            magic_trailing_comma: MagicTrailingComma::Respect,
            preview: PreviewMode::Disabled,
        }
    );
}

#[test]
fn settings_follow_the_configuration() {
    let mut config = Configuration::default();
    config.indent_style = Some(IndentStyle::Tab);
    config.line_length = Some(100);
    config.indent_width = Some(2);
    config.line_ending = Some(LineEnding::CarriageReturnLineFeed);
    config.quote_style = Some(QuoteStyle::Single);
    config.skip_magic_trailing_comma = Some(false);
    config.preview = Some(true);
    let settings = resolve_options(&config);
    assert_eq!(
        settings,
        FormatSettings {
            indent_style: IndentStyle::Tab,
            line_width: 100,
            indent_width: 2,
            line_ending: FormatLineEnding::CarriageReturnLineFeed,
            quote_style: FormatQuoteStyle::Single,
            magic_trailing_comma: MagicTrailingComma::Ignore,
            preview: PreviewMode::Enabled,
        }
    );
}

#[test]
fn format_outcome_reports_changes_only() {
    assert_eq!(format_outcome("a", Ok("a".to_string())), Ok(None));
    assert_eq!(format_outcome("a", Ok("b".to_string())), Ok(Some("b".to_string())));
    assert_eq!(format_outcome("a", Err("bad".to_string())), Err("bad".to_string()));
}

#[test]
fn syntax_errors_are_reported() {
    let config = Configuration::default();
    assert!(format_text("./file.py", "def (:\n", &config).is_err());
    initialize_ruff_linter();
}
