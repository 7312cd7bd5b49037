//! Formatting a Python file with the resolved configuration.
use vstd::prelude::*;

use crate::configuration::types::{ConfigurationView, IndentStyle, LineEnding, QuoteStyle};
use crate::configuration::Configuration;
use crate::ruff_calls::{
    default_indent_style, default_indent_width, default_line_ending, default_line_width,
    default_magic_trailing_comma, default_preview, default_quote_style, format_module_source,
    ruff_formatted,
};

verus! {

/// The line endings Ruff's formatter can write.
#[derive(Clone, Copy, PartialEq, Eq, Debug, Structural)]
pub enum FormatLineEnding {
    LineFeed,
    CarriageReturnLineFeed,
    CarriageReturn,
}

/// The quote styles Ruff's formatter knows.
#[derive(Clone, Copy, PartialEq, Eq, Debug, Structural)]
pub enum FormatQuoteStyle {
    Single,
    Double,
    Preserve,
}

/// Whether a trailing comma keeps a collection expanded.
#[derive(Clone, Copy, PartialEq, Eq, Debug, Structural)]
pub enum MagicTrailingComma {
    Respect,
    Ignore,
}

/// Whether Ruff's preview style is used.
#[derive(Clone, Copy, PartialEq, Eq, Debug, Structural)]
pub enum PreviewMode {
    Disabled,
    Enabled,
}

/// Every setting that Ruff's formatter is given for a file.
#[derive(Clone, Copy, PartialEq, Eq, Debug, Structural)]
pub struct FormatSettings {
    pub indent_style: IndentStyle,
    pub line_width: u16,
    pub indent_width: u8,
    pub line_ending: FormatLineEnding,
    pub quote_style: FormatQuoteStyle,
    pub magic_trailing_comma: MagicTrailingComma,
    pub preview: PreviewMode,
}

/// The settings a configuration gives the formatter: each setting the configuration holds,
/// except zero widths, replaces Ruff's default (space indents, width 88, indent 4, line
/// feeds, double quotes, magic trailing commas respected, no preview).
/// `skipMagicTrailingComma: true` maps to `Respect` and `false` to `Ignore`.
pub open spec fn resolved_format_settings(config: ConfigurationView) -> FormatSettings {
    FormatSettings {
        indent_style: match config.indent_style {
            Some(s) => s,
            None => IndentStyle::Space,
        },
        line_width: match config.line_length {
            Some(l) => if l != 0 {
                l
            } else {
                88
            },
            None => 88,
        },
        indent_width: match config.indent_width {
            Some(w) => if w != 0 {
                w
            } else {
                4
            },
            None => 4,
        },
        line_ending: match config.line_ending {
            Some(LineEnding::LineFeed) => FormatLineEnding::LineFeed,
            Some(LineEnding::CarriageReturnLineFeed) => FormatLineEnding::CarriageReturnLineFeed,
            None => FormatLineEnding::LineFeed,
        },
        quote_style: match config.quote_style {
            Some(QuoteStyle::Single) => FormatQuoteStyle::Single,
            Some(QuoteStyle::Double) => FormatQuoteStyle::Double,
            None => FormatQuoteStyle::Double,
        },
        magic_trailing_comma: match config.skip_magic_trailing_comma {
            Some(true) => MagicTrailingComma::Respect,
            Some(false) => MagicTrailingComma::Ignore,
            None => MagicTrailingComma::Respect,
        },
        preview: match config.preview {
            Some(true) => PreviewMode::Enabled,
            Some(false) => PreviewMode::Disabled,
            None => PreviewMode::Disabled,
        },
    }
}

/// The settings Ruff's formatter is given for a configuration, starting from Ruff's own
/// defaults.
pub fn resolve_options(config: &Configuration) -> (settings: FormatSettings)
    ensures
        settings == resolved_format_settings(config@),
        settings.line_width >= 1,
        settings.indent_width >= 1,
{
    let mut settings = FormatSettings {
        indent_style: default_indent_style(),
        line_width: default_line_width(),
        indent_width: default_indent_width(),
        line_ending: default_line_ending(),
        quote_style: default_quote_style(),
        magic_trailing_comma: default_magic_trailing_comma(),
        preview: default_preview(),
    };
    if let Some(indent_style) = config.indent_style {
        settings.indent_style = indent_style;
    }
    if let Some(line_width) = config.line_length {
        if line_width != 0 {
            settings.line_width = line_width;
        }
    }
    if let Some(indent_width) = config.indent_width {
        if indent_width != 0 {
            settings.indent_width = indent_width;
        }
    }
    if let Some(line_ending) = config.line_ending {
        settings.line_ending = match line_ending {
            LineEnding::LineFeed => FormatLineEnding::LineFeed,
            LineEnding::CarriageReturnLineFeed => FormatLineEnding::CarriageReturnLineFeed,
        };
    }
    if let Some(quote_style) = config.quote_style {
        settings.quote_style = match quote_style {
            QuoteStyle::Single => FormatQuoteStyle::Single,
            QuoteStyle::Double => FormatQuoteStyle::Double,
        };
    }
    if let Some(value) = config.skip_magic_trailing_comma {
        settings.magic_trailing_comma = if value {
            MagicTrailingComma::Respect
        } else {
            MagicTrailingComma::Ignore
        };
    }
    if let Some(value) = config.preview {
        settings.preview = if value {
            PreviewMode::Enabled
        } else {
            PreviewMode::Disabled
        };
    }
    settings
}

/// What formatting reports for an input given the formatter's output: `None` when the
/// text is unchanged, the new text otherwise, and the formatter's error as it is.
pub open spec fn format_result(input: Seq<char>, formatted: Result<Seq<char>, Seq<char>>) -> Result<
    Option<Seq<char>>,
    Seq<char>,
> {
    match formatted {
        Ok(code) => if code == input {
            Ok(None)
        } else {
            Ok(Some(code))
        },
        Err(e) => Err(e),
    }
}

pub open spec fn text_result_view(r: Result<Option<String>, String>) -> Result<
    Option<Seq<char>>,
    Seq<char>,
> {
    match r {
        Ok(Some(s)) => Ok(Some(s@)),
        Ok(None) => Ok(None),
        Err(e) => Err(e@),
    }
}

pub open spec fn text_view(r: Result<String, String>) -> Result<Seq<char>, Seq<char>> {
    match r {
        Ok(s) => Ok(s@),
        Err(e) => Err(e@),
    }
}

/// Turns the formatter's output for an input into what formatting reports.
pub fn format_outcome(input_text: &str, formatted: Result<String, String>) -> (result: Result<
    Option<String>,
    String,
>)
    ensures
        text_result_view(result) == format_result(input_text@, text_view(formatted)),
{
    match formatted {
        Ok(code) => {
            let input = String::from_str(input_text);
            if code == input {
                Ok(None)
            } else {
                Ok(Some(code))
            }
        },
        Err(e) => Err(e),
    }
}

/// Formats a Python file: `None` when Ruff leaves it as it is, the formatted text
/// otherwise, or Ruff's error (such as a syntax error).
pub fn format_text(file_path: &str, input_text: &str, config: &Configuration) -> (result: Result<
    Option<String>,
    String,
>)
    ensures
        text_result_view(result) == format_result(
            input_text@,
            ruff_formatted(file_path@, input_text@, resolved_format_settings(config@)),
        ),
{
    let options = resolve_options(config);
    let formatted = format_module_source(file_path, input_text, &options);
    format_outcome(input_text, formatted)
}

} // verus!
