//! Formatting of Python source through Ruff's formatter, driven by a dprint-style
//! configuration.
pub mod configuration;
pub mod format_text;
pub mod laws;
pub mod lint;
pub mod plugin;
pub mod dprint_calls;
pub mod ruff_calls;
pub mod std_calls;

pub use format_text::format_text;

use vstd::prelude::*;

verus! {

/// Hook run before linting; nothing needs to be set up outside wasm.
pub fn initialize_ruff_linter() {
}

} // verus!
