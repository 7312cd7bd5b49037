//! Calls into `dprint_core`.
use vstd::prelude::*;

verus! {

/// The message dprint gives for a value a setting does not accept.
pub open spec fn invalid_value_text(value: Seq<char>) -> Seq<char> {
    "Found invalid value '"@ + value + "'."@
}

/// `Display` of `dprint_core::configuration::ParseConfigurationError`, whose source writes
/// `Found invalid value '{value}'.`.
#[verifier::external_body]
pub(crate) fn invalid_value_message(value: &str) -> (message: String)
    ensures
        message@ == invalid_value_text(value@),
{
    dprint_core::configuration::ParseConfigurationError(value.to_string()).to_string()
}

} // verus!
