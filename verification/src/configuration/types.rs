use vstd::prelude::*;

use crate::dprint_calls::{invalid_value_message, invalid_value_text};
use crate::std_calls::{bool_parse_error, parse_bool, parse_u16, parse_u8, u16_parse, u8_parse};

verus! {

/// Whether two texts are the same.
pub fn str_eq(a: &str, b: &str) -> (r: bool)
    ensures
        r == (a@ == b@),
{
    let a = String::from_str(a);
    let b = String::from_str(b);
    a == b
}

/// A value that a configuration setting did not accept.
pub struct ParseConfigurationError(pub String);

impl ParseConfigurationError {
    /// The message shown for the refused value.
    pub fn message(&self) -> (m: String)
        ensures
            m@ == invalid_value_text(self.0@),
    {
        invalid_value_message(self.0.as_str())
    }
}

/// A type that a scalar configuration value is read as, from its text.
pub trait ConfigScalar: Sized {
    /// The value a text reads as, or the message for a text that is refused.
    spec fn spec_from_text(text: Seq<char>) -> Result<Self, Seq<char>>;

    fn from_text(text: &str) -> (r: Result<Self, String>)
        ensures
            match r {
                Ok(v) => Self::spec_from_text(text@) == Ok::<Self, Seq<char>>(v),
                Err(e) => Self::spec_from_text(text@) == Err::<Self, Seq<char>>(e@),
            },
    ;
}

impl ConfigScalar for u16 {
    open spec fn spec_from_text(text: Seq<char>) -> Result<u16, Seq<char>> {
        u16_parse(text)
    }

    fn from_text(text: &str) -> (r: Result<u16, String>) {
        parse_u16(text)
    }
}

impl ConfigScalar for u8 {
    open spec fn spec_from_text(text: Seq<char>) -> Result<u8, Seq<char>> {
        u8_parse(text)
    }

    fn from_text(text: &str) -> (r: Result<u8, String>) {
        parse_u8(text)
    }
}

impl ConfigScalar for bool {
    open spec fn spec_from_text(text: Seq<char>) -> Result<bool, Seq<char>> {
        if text == "true"@ {
            Ok(true)
        } else if text == "false"@ {
            Ok(false)
        } else {
            Err(bool_parse_error(text))
        }
    }

    fn from_text(text: &str) -> (r: Result<bool, String>) {
        proof {
            reveal_strlit("true");
            reveal_strlit("false");
            assert("true"@.len() != "false"@.len());
        }
        parse_bool(text)
    }
}

/// How code is indented.
#[derive(Clone, Copy, PartialEq, Eq, Debug, Structural)]
pub enum IndentStyle {
    Tab,
    Space,
}

impl IndentStyle {
    /// The name of the style in configuration files.
    pub open spec fn spec_name(self) -> Seq<char> {
        match self {
            IndentStyle::Tab => "tab"@,
            IndentStyle::Space => "space"@,
        }
    }

    /// The style a name stands for.
    pub open spec fn spec_parse(text: Seq<char>) -> Option<IndentStyle> {
        if text == "tab"@ {
            Some(IndentStyle::Tab)
        } else if text == "space"@ {
            Some(IndentStyle::Space)
        } else {
            None
        }
    }

    /// The name of the style in configuration files.
    pub fn as_str(&self) -> (s: &'static str)
        ensures
            s@ == self.spec_name(),
    {
        match self {
            IndentStyle::Tab => "tab",
            IndentStyle::Space => "space",
        }
    }

    /// The name of the style, owned.
    pub fn to_string(&self) -> (s: String)
        ensures
            s@ == self.spec_name(),
    {
        String::from_str(self.as_str())
    }

    /// Reads a style from its name; any other text is refused.
    pub fn parse(text: &str) -> (r: Result<IndentStyle, ParseConfigurationError>)
        ensures
            match r {
                Ok(v) => Self::spec_parse(text@) == Some(v),
                Err(e) => Self::spec_parse(text@) is None && e.0@ == text@,
            },
    {
        if str_eq(text, "tab") {
            Ok(IndentStyle::Tab)
        } else if str_eq(text, "space") {
            Ok(IndentStyle::Space)
        } else {
            Err(ParseConfigurationError(String::from_str(text)))
        }
    }
}

impl std::str::FromStr for IndentStyle {
    type Err = ParseConfigurationError;

    fn from_str(text: &str) -> (r: Result<IndentStyle, ParseConfigurationError>)
        ensures
            match r {
                Ok(v) => IndentStyle::spec_parse(text@) == Some(v),
                Err(e) => IndentStyle::spec_parse(text@) is None && e.0@ == text@,
            },
    {
        IndentStyle::parse(text)
    }
}

impl ConfigScalar for IndentStyle {
    open spec fn spec_from_text(text: Seq<char>) -> Result<IndentStyle, Seq<char>> {
        match Self::spec_parse(text) {
            Some(v) => Ok(v),
            None => Err(invalid_value_text(text)),
        }
    }

    fn from_text(text: &str) -> (r: Result<IndentStyle, String>) {
        match IndentStyle::parse(text) {
            Ok(v) => Ok(v),
            Err(e) => Err(e.message()),
        }
    }
}

/// The line ending the formatter writes.
#[derive(Clone, Copy, PartialEq, Eq, Debug, Structural)]
pub enum LineEnding {
    LineFeed,
    CarriageReturnLineFeed,
}

impl LineEnding {
    /// The name of the line ending in configuration files.
    pub open spec fn spec_name(self) -> Seq<char> {
        match self {
            LineEnding::LineFeed => "lf"@,
            LineEnding::CarriageReturnLineFeed => "cr-lf"@,
        }
    }

    /// The line ending a name stands for.
    pub open spec fn spec_parse(text: Seq<char>) -> Option<LineEnding> {
        if text == "lf"@ {
            Some(LineEnding::LineFeed)
        } else if text == "cr-lf"@ {
            Some(LineEnding::CarriageReturnLineFeed)
        } else {
            None
        }
    }

    /// The name of the line ending in configuration files.
    pub fn as_str(&self) -> (s: &'static str)
        ensures
            s@ == self.spec_name(),
    {
        match self {
            LineEnding::LineFeed => "lf",
            LineEnding::CarriageReturnLineFeed => "cr-lf",
        }
    }

    /// The name of the line ending, owned.
    pub fn to_string(&self) -> (s: String)
        ensures
            s@ == self.spec_name(),
    {
        String::from_str(self.as_str())
    }

    /// Reads a line ending from its name; any other text is refused.
    pub fn parse(text: &str) -> (r: Result<LineEnding, ParseConfigurationError>)
        ensures
            match r {
                Ok(v) => Self::spec_parse(text@) == Some(v),
                Err(e) => Self::spec_parse(text@) is None && e.0@ == text@,
            },
    {
        if str_eq(text, "lf") {
            Ok(LineEnding::LineFeed)
        } else if str_eq(text, "cr-lf") {
            Ok(LineEnding::CarriageReturnLineFeed)
        } else {
            Err(ParseConfigurationError(String::from_str(text)))
        }
    }
}

impl std::str::FromStr for LineEnding {
    type Err = ParseConfigurationError;

    fn from_str(text: &str) -> (r: Result<LineEnding, ParseConfigurationError>)
        ensures
            match r {
                Ok(v) => LineEnding::spec_parse(text@) == Some(v),
                Err(e) => LineEnding::spec_parse(text@) is None && e.0@ == text@,
            },
    {
        LineEnding::parse(text)
    }
}

impl ConfigScalar for LineEnding {
    open spec fn spec_from_text(text: Seq<char>) -> Result<LineEnding, Seq<char>> {
        match Self::spec_parse(text) {
            Some(v) => Ok(v),
            None => Err(invalid_value_text(text)),
        }
    }

    fn from_text(text: &str) -> (r: Result<LineEnding, String>) {
        match LineEnding::parse(text) {
            Ok(v) => Ok(v),
            Err(e) => Err(e.message()),
        }
    }
}

/// The quote preferred for strings.
#[derive(Clone, Copy, PartialEq, Eq, Debug, Structural)]
pub enum QuoteStyle {
    Single,
    Double,
}

impl QuoteStyle {
    /// The name of the quote style in configuration files.
    pub open spec fn spec_name(self) -> Seq<char> {
        match self {
            QuoteStyle::Single => "single"@,
            QuoteStyle::Double => "double"@,
        }
    }

    /// The quote style a name stands for.
    pub open spec fn spec_parse(text: Seq<char>) -> Option<QuoteStyle> {
        if text == "single"@ {
            Some(QuoteStyle::Single)
        } else if text == "double"@ {
            Some(QuoteStyle::Double)
        } else {
            None
        }
    }

    /// The name of the quote style in configuration files.
    pub fn as_str(&self) -> (s: &'static str)
        ensures
            s@ == self.spec_name(),
    {
        match self {
            QuoteStyle::Single => "single",
            QuoteStyle::Double => "double",
        }
    }

    /// The name of the quote style, owned.
    pub fn to_string(&self) -> (s: String)
        ensures
            s@ == self.spec_name(),
    {
        String::from_str(self.as_str())
    }

    /// Reads a quote style from its name; any other text is refused.
    pub fn parse(text: &str) -> (r: Result<QuoteStyle, ParseConfigurationError>)
        ensures
            match r {
                Ok(v) => Self::spec_parse(text@) == Some(v),
                Err(e) => Self::spec_parse(text@) is None && e.0@ == text@,
            },
    {
        if str_eq(text, "single") {
            Ok(QuoteStyle::Single)
        } else if str_eq(text, "double") {
            Ok(QuoteStyle::Double)
        } else {
            Err(ParseConfigurationError(String::from_str(text)))
        }
    }
}

impl std::str::FromStr for QuoteStyle {
    type Err = ParseConfigurationError;

    fn from_str(text: &str) -> (r: Result<QuoteStyle, ParseConfigurationError>)
        ensures
            match r {
                Ok(v) => QuoteStyle::spec_parse(text@) == Some(v),
                Err(e) => QuoteStyle::spec_parse(text@) is None && e.0@ == text@,
            },
    {
        QuoteStyle::parse(text)
    }
}

impl ConfigScalar for QuoteStyle {
    open spec fn spec_from_text(text: Seq<char>) -> Result<QuoteStyle, Seq<char>> {
        match Self::spec_parse(text) {
            Some(v) => Ok(v),
            None => Err(invalid_value_text(text)),
        }
    }

    fn from_text(text: &str) -> (r: Result<QuoteStyle, String>) {
        match QuoteStyle::parse(text) {
            Ok(v) => Ok(v),
            Err(e) => Err(e.message()),
        }
    }
}


/// Which lint fixes to apply, and the imports every file must have.
#[derive(Clone, Debug)]
pub struct FixLintErrors {
    pub unused_import: Option<bool>,
    pub unsorted_imports: Option<bool>,
    pub missing_required_import: Option<bool>,
    pub required_imports: Option<Vec<String>>,
}

/// `FixLintErrors` with its texts taken by their characters.
pub struct FixLintErrorsView {
    pub unused_import: Option<bool>,
    pub unsorted_imports: Option<bool>,
    pub missing_required_import: Option<bool>,
    pub required_imports: Option<Seq<Seq<char>>>,
}

pub open spec fn strings_view(v: Seq<String>) -> Seq<Seq<char>> {
    v.map_values(|s: String| s@)
}

impl View for FixLintErrors {
    type V = FixLintErrorsView;

    open spec fn view(&self) -> FixLintErrorsView {
        FixLintErrorsView {
            unused_import: self.unused_import,
            unsorted_imports: self.unsorted_imports,
            missing_required_import: self.missing_required_import,
            required_imports: match self.required_imports {
                Some(v) => Some(strings_view(v@)),
                None => None,
            },
        }
    }
}

/// The resolved settings of the formatter; `None` leaves a setting to Ruff.
#[derive(Clone, Debug)]
pub struct Configuration {
    pub indent_style: Option<IndentStyle>,
    pub line_length: Option<u16>,
    pub indent_width: Option<u8>,
    pub line_ending: Option<LineEnding>,
    pub quote_style: Option<QuoteStyle>,
    pub skip_magic_trailing_comma: Option<bool>,
    pub preview: Option<bool>,
    pub fix_lint_errors: Option<FixLintErrors>,
}

/// `Configuration` with its texts taken by their characters.
pub struct ConfigurationView {
    pub indent_style: Option<IndentStyle>,
    pub line_length: Option<u16>,
    pub indent_width: Option<u8>,
    pub line_ending: Option<LineEnding>,
    pub quote_style: Option<QuoteStyle>,
    pub skip_magic_trailing_comma: Option<bool>,
    pub preview: Option<bool>,
    pub fix_lint_errors: Option<FixLintErrorsView>,
}

impl View for Configuration {
    type V = ConfigurationView;

    open spec fn view(&self) -> ConfigurationView {
        ConfigurationView {
            indent_style: self.indent_style,
            line_length: self.line_length,
            indent_width: self.indent_width,
            line_ending: self.line_ending,
            quote_style: self.quote_style,
            skip_magic_trailing_comma: self.skip_magic_trailing_comma,
            preview: self.preview,
            fix_lint_errors: match self.fix_lint_errors {
                Some(f) => Some(f@),
                None => None,
            },
        }
    }
}

impl Default for Configuration {
    /// Every setting left unset.
    fn default() -> (c: Configuration)
        ensures
            c.indent_style is None && c.line_length is None && c.indent_width is None
                && c.line_ending is None && c.quote_style is None
                && c.skip_magic_trailing_comma is None && c.preview is None
                && c.fix_lint_errors is None,
    {
        Configuration {
            indent_style: None,
            line_length: None,
            indent_width: None,
            line_ending: None,
            quote_style: None,
            skip_magic_trailing_comma: None,
            preview: None,
            fix_lint_errors: None,
        }
    }
}

} // verus!
