# dprint-plugin-ruff

Formats `.py` and `.pyi` files with Ruff's formatter for dprint, with its
configuration resolution, formatting decisions and lint-fix selection proved in Verus.

Layout:

- `src/configuration/` — the configuration model: `ConfigKeyMap` (ordered, distinct
  keys) and `ConfigKeyValue`, dprint's shared settings, the plugin's `Configuration`,
  and `resolve_config`, whose contract states the resolved settings and every
  diagnostic, in order. `laws.rs` holds what holds of every resolution.
- `src/format_text.rs` — the settings Ruff's formatter is given and `format_text`.
- `src/lint.rs` — which lint fixes a configuration enables, the required imports it
  names (each once), the settings the lint fixes run with, and `apply_lint_fixes`.
- `src/plugin.rs` — the plugin's answers: resolved configuration with the files it
  takes, plugin info, and formatting of a file's bytes.
- `src/laws.rs` — what holds of formatting, lint fixing and the plugin's answers.
- `src/std_calls.rs`, `src/dprint_calls.rs`, `src/ruff_calls.rs` — the calls into the
  standard library, dprint and Ruff, each with the contract it is trusted to meet.
- `app/` — dprint's own types converted to the library's, and serde copies of the
  configuration.
