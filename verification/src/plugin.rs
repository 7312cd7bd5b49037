//! What the dprint plugin answers to dprint's requests.
use vstd::prelude::*;
use vstd::utf8::{decode_utf8, encode_utf8, valid_utf8};

use crate::configuration::config_map::{diagnostics_view, ConfigKeyMap, ConfigurationDiagnostic, GlobalConfiguration};
use crate::configuration::resolve_config::{resolve_config, resolved_configuration, resolved_diagnostics};
use crate::configuration::types::ConfigurationView;
use crate::configuration::Configuration;
use crate::format_text::{format_result, format_text, resolved_format_settings};
use crate::ruff_calls::ruff_formatted;
use crate::std_calls::{string_from_utf8, utf8_error_text};

verus! {

/// The files the plugin formats: by extension, and by name.
pub struct FileMatchingInfo {
    pub file_extensions: Vec<String>,
    pub file_names: Vec<String>,
}

/// A resolved configuration, its problems, and the files the plugin takes.
pub struct PluginResolveConfigurationResult {
    pub config: Configuration,
    pub diagnostics: Vec<ConfigurationDiagnostic>,
    pub file_matching: FileMatchingInfo,
}

/// How dprint presents the plugin.
pub struct PluginInfo {
    pub name: String,
    pub version: String,
    pub config_key: String,
    pub help_url: String,
    pub config_schema_url: String,
    pub update_url: Option<String>,
}

pub open spec fn strings_of(v: Seq<String>) -> Seq<Seq<char>> {
    v.map_values(|s: String| s@)
}

/// The address of the configuration schema of a version of the plugin.
pub open spec fn schema_url(version: Seq<char>) -> Seq<char> {
    "https://plugins.dprint.dev/dprint/dprint-plugin-ruff/"@ + version + "/schema.json"@
}

/// What a format request is answered: nothing for a range (ranges are not supported), the
/// decoding error for bytes that are not UTF-8, else the formatted text's bytes, or nothing
/// when the text stays as it is, or Ruff's error.
pub open spec fn format_response(
    path: Seq<char>,
    bytes: Seq<u8>,
    has_range: bool,
    config: ConfigurationView,
) -> Result<Option<Seq<u8>>, Seq<char>> {
    if has_range {
        Ok(None)
    } else if !valid_utf8(bytes) {
        Err(utf8_error_text(bytes))
    } else {
        let text = decode_utf8(bytes);
        match format_result(text, ruff_formatted(path, text, resolved_format_settings(config))) {
            Ok(Some(code)) => Ok(Some(encode_utf8(code))),
            Ok(None) => Ok(None),
            Err(e) => Err(e),
        }
    }
}

pub open spec fn bytes_result_view(r: Result<Option<Vec<u8>>, String>) -> Result<Option<Seq<u8>>, Seq<char>> {
    match r {
        Ok(Some(b)) => Ok(Some(b@)),
        Ok(None) => Ok(None),
        Err(e) => Err(e@),
    }
}

/// The plugin's answers to dprint.
pub struct RuffPluginHandler;

impl RuffPluginHandler {
    /// Resolves the configuration; the plugin takes `.py` and `.pyi` files.
    pub fn resolve_config(&mut self, config: ConfigKeyMap, global_config: &GlobalConfiguration) -> (result:
        PluginResolveConfigurationResult)
        ensures
            result.config@ == resolved_configuration(config@, *global_config),
            diagnostics_view(result.diagnostics@) == resolved_diagnostics(config@),
            strings_of(result.file_matching.file_extensions@) == seq!["py"@, "pyi"@],
            result.file_matching.file_names@.len() == 0,
    {
        let resolved = resolve_config(config, global_config);
        let mut file_extensions: Vec<String> = Vec::new();
        file_extensions.push(String::from_str("py"));
        file_extensions.push(String::from_str("pyi"));
        assert(strings_of(file_extensions@) =~= seq!["py"@, "pyi"@]);
        PluginResolveConfigurationResult {
            config: resolved.config,
            diagnostics: resolved.diagnostics,
            file_matching: FileMatchingInfo { file_extensions, file_names: Vec::new() },
        }
    }

    /// How dprint presents the plugin, for the package's name and version.
    pub fn plugin_info(&mut self, name: &str, version: &str) -> (info: PluginInfo)
        ensures
            info.name@ == name@,
            info.version@ == version@,
            info.config_key@ == "ruff"@,
            info.help_url@ == "https://dprint.dev/plugins/ruff"@,
            info.config_schema_url@ == schema_url(version@),
            info.update_url matches Some(u) && u@
                == "https://plugins.dprint.dev/dprint/dprint-plugin-ruff/latest.json"@,
    {
        let mut config_schema_url = String::from_str(
            "https://plugins.dprint.dev/dprint/dprint-plugin-ruff/",
        );
        config_schema_url.append(version);
        config_schema_url.append("/schema.json");
        PluginInfo {
            name: String::from_str(name),
            version: String::from_str(version),
            config_key: String::from_str("ruff"),
            help_url: String::from_str("https://dprint.dev/plugins/ruff"),
            config_schema_url,
            update_url: Some(
                String::from_str("https://plugins.dprint.dev/dprint/dprint-plugin-ruff/latest.json"),
            ),
        }
    }

    /// Formats a file's bytes; a request for a range is answered with nothing.
    pub fn format(
        &mut self,
        file_path: &str,
        file_bytes: Vec<u8>,
        has_range: bool,
        config: &Configuration,
    ) -> (result: Result<Option<Vec<u8>>, String>)
        ensures
            bytes_result_view(result) == format_response(file_path@, file_bytes@, has_range, config@),
    {
        if has_range {
            return Ok(None);
        }
        let ghost bytes = file_bytes@;
        let file_text = match string_from_utf8(file_bytes) {
            Ok(text) => text,
            Err(e) => {
                return Err(e);
            },
        };
        match format_text(file_path, file_text.as_str(), config) {
            Ok(Some(text)) => Ok(Some(text.as_str().as_bytes_vec())),
            Ok(None) => Ok(None),
            Err(e) => Err(e),
        }
    }
}

} // verus!
