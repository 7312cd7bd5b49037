use dprint_plugin_ruff::configuration::{
    ConfigKeyMap, ConfigKeyValue, Configuration, GlobalConfiguration, QuoteStyle,
};
use dprint_plugin_ruff::plugin::RuffPluginHandler;
#[test]
fn plugin_takes_python_files() {
    let mut handler = RuffPluginHandler;
    let mut config = ConfigKeyMap::new();
    config.insert("quoteStyle".to_string(), ConfigKeyValue::String("single".to_string()));
    config.insert("other".to_string(), ConfigKeyValue::Number(1));
    let result = handler.resolve_config(config, &GlobalConfiguration::default());
    assert_eq!(result.file_matching.file_extensions, vec!["py".to_string(), "pyi".to_string()]);
    assert!(result.file_matching.file_names.is_empty());
    assert_eq!(result.config.quote_style, Some(QuoteStyle::Single));
    assert_eq!(result.diagnostics.len(), 1);
    assert_eq!(result.diagnostics[0].property_name, "other");
}

#[test]
fn plugin_info_names_the_plugin() {
    let mut handler = RuffPluginHandler;
    let info = handler.plugin_info("dprint-plugin-ruff", "0.3.1");
    assert_eq!(info.name, "dprint-plugin-ruff");
    assert_eq!(info.version, "0.3.1");
    assert_eq!(info.config_key, "ruff");
    assert_eq!(info.help_url, "https://dprint.dev/plugins/ruff");
    assert_eq!(
        info.config_schema_url,
        "https://plugins.dprint.dev/dprint/dprint-plugin-ruff/0.3.1/schema.json"
    );
    assert_eq!(
        info.update_url,
        Some("https://plugins.dprint.dev/dprint/dprint-plugin-ruff/latest.json".to_string())
    );
}

#[test]
fn range_requests_are_not_formatted() {
    let mut handler = RuffPluginHandler;
    assert_eq!(
        handler.format("./a.py", b"x=1\n".to_vec(), true, &Configuration::default()),
        Ok(None)
    );
}

#[test]
fn file_bytes_are_formatted() {
    let mut handler = RuffPluginHandler;
    let config = Configuration::default();
    assert_eq!(
        handler.format("./a.py", b"x=1\n".to_vec(), false, &config),
        Ok(Some(b"x = 1\n".to_vec()))
    );
    assert_eq!(handler.format("./a.py", b"x = 1\n".to_vec(), false, &config), Ok(None));
    assert_eq!(
        handler.format("./a.py", "s='é'\n".as_bytes().to_vec(), false, &config),
        Ok(Some("s = \"é\"\n".as_bytes().to_vec()))
    );
}

#[test]
fn invalid_utf8_is_refused() {
    let mut handler = RuffPluginHandler;
    assert_eq!(
        handler.format("./a.py", vec![0xff, 0xfe], false, &Configuration::default()),
        Err("invalid utf-8 sequence of 1 bytes from index 0".to_string())
    );
}

#[test]
fn numbers_and_flags_are_read_from_their_text() {
    let mut handler = RuffPluginHandler;
    let mut config = ConfigKeyMap::new();
    config.insert("lineLength".to_string(), ConfigKeyValue::String("".to_string()));
    config.insert("indentWidth".to_string(), ConfigKeyValue::String("7".to_string()));
    config.insert("preview".to_string(), ConfigKeyValue::Bool(true));
    config.insert("skipMagicTrailingComma".to_string(), ConfigKeyValue::String("false".to_string()));
    config.insert("indentStyle".to_string(), ConfigKeyValue::Number(-42));
    let result = handler.resolve_config(config, &GlobalConfiguration::default());
    let found: Vec<(String, String)> = result
        .diagnostics
        .iter()
        .map(|d| (d.property_name.clone(), d.message.clone()))
        .collect();
    assert_eq!(
        found,
        vec![
            ("lineLength".to_string(), "cannot parse integer from empty string".to_string()),
            ("indentStyle".to_string(), "Found invalid value '-42'.".to_string()),
        ]
    );
    assert_eq!(result.config.line_length, None);
    assert_eq!(result.config.indent_width, Some(7));
    assert_eq!(result.config.preview, Some(true));
    assert_eq!(result.config.skip_magic_trailing_comma, Some(false));
}

#[test]
fn setting_names_parse_through_from_str() {
    assert_eq!("double".parse::<QuoteStyle>().ok(), Some(QuoteStyle::Double));
    assert_eq!("Double".parse::<QuoteStyle>().err().map(|e| e.message()), Some("Found invalid value 'Double'.".to_string()));
}
