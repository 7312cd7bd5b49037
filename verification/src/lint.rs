//! Applying Ruff's lint fixes that the configuration asks for.
use vstd::prelude::*;

use crate::configuration::types::{ConfigurationView, FixLintErrorsView};
use crate::configuration::Configuration;
use crate::format_text::{format_outcome, format_result, text_result_view, text_view};
use crate::initialize_ruff_linter;
use crate::ruff_calls::{
    default_lint_line_length, default_lint_tab_size, lint_fix_source, linter_settings,
    name_imports_parse, parse_name_imports,
};
use crate::std_calls::{str_debug, str_to_debug_string};

verus! {

/// The lint rules whose fixes the plugin can apply.
#[derive(Clone, Copy, PartialEq, Eq, Debug, Structural)]
pub enum LintRule {
    UnusedImport,
    UnsortedImports,
    MissingRequiredImport,
}

/// One import that Ruff requires: `import name [as as_name]`, or
/// `from [.. level dots][module] import name [as as_name]`.
#[derive(Clone, PartialEq, Eq, Debug)]
pub enum RequiredImport {
    Import { name: String, as_name: Option<String> },
    ImportFrom { module: Option<String>, name: String, as_name: Option<String>, level: u32 },
}

/// `RequiredImport` with its texts taken by their characters.
pub enum RequiredImportView {
    Import { name: Seq<char>, as_name: Option<Seq<char>> },
    ImportFrom { module: Option<Seq<char>>, name: Seq<char>, as_name: Option<Seq<char>>, level: u32 },
}

pub open spec fn opt_text(text: Option<String>) -> Option<Seq<char>> {
    match text {
        Some(t) => Some(t@),
        None => None,
    }
}

impl View for RequiredImport {
    type V = RequiredImportView;

    open spec fn view(&self) -> RequiredImportView {
        match self {
            RequiredImport::Import { name, as_name } => RequiredImportView::Import {
                name: name@,
                as_name: opt_text(*as_name),
            },
            RequiredImport::ImportFrom { module, name, as_name, level } => RequiredImportView::ImportFrom {
                module: opt_text(*module),
                name: name@,
                as_name: opt_text(*as_name),
                level: *level,
            },
        }
    }
}

fn clone_optional_text(text: &Option<String>) -> (r: Option<String>)
    ensures
        opt_text(r) == opt_text(*text),
{
    match text {
        Some(t) => Some(t.clone()),
        None => None,
    }
}

impl RequiredImport {
    /// A copy of the import.
    pub fn clone_import(&self) -> (r: RequiredImport)
        ensures
            r@ == self@,
    {
        match self {
            RequiredImport::Import { name, as_name } => RequiredImport::Import {
                name: name.clone(),
                as_name: clone_optional_text(as_name),
            },
            RequiredImport::ImportFrom { module, name, as_name, level } => RequiredImport::ImportFrom {
                module: clone_optional_text(module),
                name: name.clone(),
                as_name: clone_optional_text(as_name),
                level: *level,
            },
        }
    }
}

pub open spec fn imports_view(imports: Seq<RequiredImport>) -> Seq<RequiredImportView> {
    imports.map_values(|i: RequiredImport| i@)
}

/// The settings the lint fixes run with: the rules whose fixes apply, preview mode, the line
/// length and tab size, and the imports that must be present.
pub struct LintSettings {
    pub rules: Vec<LintRule>,
    pub preview: bool,
    pub line_length: u16,
    pub tab_size: u8,
    pub required_imports: Vec<RequiredImport>,
}

/// `LintSettings` with the required imports taken as a set.
pub struct LintSettingsView {
    pub rules: Seq<LintRule>,
    pub preview: bool,
    pub line_length: u16,
    pub tab_size: u8,
    pub required_imports: Set<RequiredImportView>,
}

impl View for LintSettings {
    type V = LintSettingsView;

    open spec fn view(&self) -> LintSettingsView {
        LintSettingsView {
            rules: self.rules@,
            preview: self.preview,
            line_length: self.line_length,
            tab_size: self.tab_size,
            required_imports: imports_view(self.required_imports@).to_set(),
        }
    }
}

pub open spec fn rule_if(flag: Option<bool>, rule: LintRule) -> Seq<LintRule> {
    if flag == Some(true) {
        seq![rule]
    } else {
        seq![]
    }
}

/// The rules a configuration enables, in a fixed order: each that its flag sets to `true`.
pub open spec fn enabled_rules(config: ConfigurationView) -> Seq<LintRule> {
    match config.fix_lint_errors {
        Some(f) => rule_if(f.unused_import, LintRule::UnusedImport) + rule_if(
            f.unsorted_imports,
            LintRule::UnsortedImports,
        ) + rule_if(f.missing_required_import, LintRule::MissingRequiredImport),
        None => seq![],
    }
}

/// The required imports a configuration lists.
pub open spec fn required_imports_of(config: ConfigurationView) -> Seq<Seq<char>> {
    match config.fix_lint_errors {
        Some(f) => match f.required_imports {
            Some(v) => v,
            None => seq![],
        },
        None => seq![],
    }
}

/// The message for the first required import that Ruff does not read as an import
/// statement, if there is one.
pub open spec fn first_invalid_import(imports: Seq<Seq<char>>) -> Option<Seq<char>>
    decreases imports.len(),
{
    if imports.len() == 0 {
        None
    } else {
        match name_imports_parse(imports[0]) {
            Err(e) => Some("Invalid required import "@ + str_debug(imports[0]) + ": "@ + e),
            Ok(_) => first_invalid_import(imports.drop_first()),
        }
    }
}

fn push_rule_if(rules: &mut Vec<LintRule>, flag: Option<bool>, rule: LintRule)
    ensures
        final(rules)@ == old(rules)@ + rule_if(flag, rule),
{
    if flag == Some(true) {
        rules.push(rule);
        assert(rules@ =~= old(rules)@ + rule_if(flag, rule));
    } else {
        assert(rules@ =~= old(rules)@ + rule_if(flag, rule));
    }
}

/// The rules whose fixes the configuration enables.
pub fn resolve_enabled_rules(config: &Configuration) -> (rules: Vec<LintRule>)
    ensures
        rules@ == enabled_rules(config@),
{
    let mut rules: Vec<LintRule> = Vec::new();
    match &config.fix_lint_errors {
        Some(fix_lint_errors) => {
            push_rule_if(&mut rules, fix_lint_errors.unused_import, LintRule::UnusedImport);
            push_rule_if(&mut rules, fix_lint_errors.unsorted_imports, LintRule::UnsortedImports);
            push_rule_if(
                &mut rules,
                fix_lint_errors.missing_required_import,
                LintRule::MissingRequiredImport,
            );
            assert(rules@ =~= enabled_rules(config@));
        },
        None => {
            assert(rules@ =~= enabled_rules(config@));
        },
    }
    rules
}

/// The imports Ruff reads from one required import (none where it reads none).
pub open spec fn parsed_imports(text: Seq<char>) -> Seq<RequiredImportView> {
    match name_imports_parse(text) {
        Ok(imports) => imports,
        Err(_) => seq![],
    }
}

/// Every import that the required imports name, each once.
pub open spec fn required_import_set(texts: Seq<Seq<char>>) -> Set<RequiredImportView>
    decreases texts.len(),
{
    if texts.len() == 0 {
        Set::empty()
    } else {
        required_import_set(texts.drop_last()).union(parsed_imports(texts.last()).to_set())
    }
}

/// The settings a configuration gives the lint fixes, with the rules it enables: preview
/// off unless set, Ruff's default line length and tab size unless set to a value other than
/// zero, and the imports its required imports name.
pub open spec fn lint_settings_of(config: ConfigurationView, rules: Seq<LintRule>) -> LintSettingsView {
    LintSettingsView {
        rules,
        preview: match config.preview {
            Some(b) => b,
            None => false,
        },
        line_length: match config.line_length {
            Some(l) => if l != 0 { l } else { 88 },
            None => 88,
        },
        tab_size: match config.indent_width {
            Some(w) => if w != 0 { w } else { 4 },
            None => 4,
        },
        required_imports: required_import_set(required_imports_of(config)),
    }
}

proof fn lemma_first_invalid_import_prefix(imports: Seq<Seq<char>>, i: int)
    requires
        0 <= i < imports.len(),
        forall|j: int| 0 <= j < i ==> name_imports_parse(#[trigger] imports[j]) is Ok,
    ensures
        first_invalid_import(imports) == first_invalid_import(imports.subrange(i, imports.len() as int)),
    decreases i,
{
    if i > 0 {
        let rest = imports.drop_first();
        assert forall|j: int| 0 <= j < i - 1 implies name_imports_parse(#[trigger] rest[j]) is Ok by {
            assert(rest[j] == imports[j + 1]);
        }
        lemma_first_invalid_import_prefix(rest, i - 1);
        assert(rest.subrange(i - 1, rest.len() as int) =~= imports.subrange(i, imports.len() as int));
        assert(name_imports_parse(imports[0]) is Ok);
    } else {
        assert(imports.subrange(0, imports.len() as int) =~= imports);
    }
}

proof fn lemma_no_invalid_import(imports: Seq<Seq<char>>)
    requires
        forall|j: int| 0 <= j < imports.len() ==> name_imports_parse(#[trigger] imports[j]) is Ok,
    ensures
        first_invalid_import(imports) is None,
    decreases imports.len(),
{
    if imports.len() > 0 {
        let rest = imports.drop_first();
        assert forall|j: int| 0 <= j < rest.len() implies name_imports_parse(#[trigger] rest[j]) is Ok by {
            assert(rest[j] == imports[j + 1]);
        }
        lemma_no_invalid_import(rest);
        assert(name_imports_parse(imports[0]) is Ok);
    }
}

fn same_text(a: &String, b: &String) -> (r: bool)
    ensures
        r == (a@ == b@),
{
    a.eq(b)
}

fn same_optional_text(a: &Option<String>, b: &Option<String>) -> (r: bool)
    ensures
        r == (opt_text(*a) == opt_text(*b)),
{
    match (a, b) {
        (Some(x), Some(y)) => same_text(x, y),
        (None, None) => true,
        _ => false,
    }
}

fn same_import(a: &RequiredImport, b: &RequiredImport) -> (r: bool)
    ensures
        r == (a@ == b@),
{
    match (a, b) {
        (
            RequiredImport::Import { name: n1, as_name: a1 },
            RequiredImport::Import { name: n2, as_name: a2 },
        ) => same_text(n1, n2) && same_optional_text(a1, a2),
        (
            RequiredImport::ImportFrom { module: m1, name: n1, as_name: a1, level: l1 },
            RequiredImport::ImportFrom { module: m2, name: n2, as_name: a2, level: l2 },
        ) => *l1 == *l2 && same_optional_text(m1, m2) && same_text(n1, n2) && same_optional_text(a1, a2),
        _ => false,
    }
}

fn contains_import(imports: &Vec<RequiredImport>, import: &RequiredImport) -> (r: bool)
    ensures
        r == imports_view(imports@).contains(import@),
{
    let mut i: usize = 0;
    while i < imports.len()
        invariant
            0 <= i <= imports@.len(),
            forall|j: int| 0 <= j < i ==> imports@[j]@ != import@,
        decreases imports@.len() - i,
    {
        if same_import(&imports[i], import) {
            assert(imports_view(imports@)[i as int] == import@);
            return true;
        }
        i = i + 1;
    }
    assert forall|j: int| 0 <= j < imports_view(imports@).len() implies imports_view(imports@)[j] != import@ by {
        assert(imports_view(imports@)[j] == imports@[j]@);
    }
    false
}

/// Adds each import that `imports` does not hold yet, in order.
fn add_new_imports(resolved: &mut Vec<RequiredImport>, imports: Vec<RequiredImport>)
    requires
        imports_view(old(resolved)@).no_duplicates(),
    ensures
        imports_view(final(resolved)@).no_duplicates(),
        imports_view(final(resolved)@).to_set() == imports_view(old(resolved)@).to_set().union(
            imports_view(imports@).to_set(),
        ),
{
    let ghost start = imports_view(resolved@).to_set();
    let ghost all = imports_view(imports@);
    let mut k: usize = 0;
    while k < imports.len()
        invariant
            0 <= k <= imports@.len(),
            all == imports_view(imports@),
            imports_view(resolved@).no_duplicates(),
            imports_view(resolved@).to_set() == start.union(all.take(k as int).to_set()),
        decreases imports@.len() - k,
    {
        let ghost before = imports_view(resolved@);
        let import = &imports[k];
        assert(all.take(k + 1) =~= all.take(k as int).push(import@));
        proof {
            all.take(k as int).lemma_push_to_set_commute(import@);
        }
        if !contains_import(resolved, import) {
            resolved.push(import.clone_import());
            assert(imports_view(resolved@) =~= before.push(import@));
            proof {
                before.lemma_push_to_set_commute(import@);
            }
            assert forall|i: int, j: int|
                0 <= i < imports_view(resolved@).len() && 0 <= j < imports_view(resolved@).len() && i != j
                implies imports_view(resolved@)[i] != imports_view(resolved@)[j] by {
                if i < before.len() && j < before.len() {
                    assert(before[i] != before[j]);
                } else if i < before.len() {
                    assert(before.contains(before[i]));
                } else {
                    assert(before.contains(before[j]));
                }
            }
            assert(imports_view(resolved@).to_set() =~= start.union(all.take(k + 1).to_set()));
        } else {
            assert(imports_view(resolved@).to_set() =~= start.union(all.take(k + 1).to_set()));
        }
        k = k + 1;
    }
    assert(all.take(imports@.len() as int) =~= all);
}

/// Reads each required import as Ruff's import statements and gathers their imports, each
/// once; the first that Ruff does not read stops the reading with its message.
pub fn resolve_required_imports(config: &Configuration) -> (r: Result<Vec<RequiredImport>, String>)
    ensures
        match r {
            Ok(v) => first_invalid_import(required_imports_of(config@)) is None
                && imports_view(v@).no_duplicates()
                && imports_view(v@).to_set() == required_import_set(required_imports_of(config@)),
            Err(e) => first_invalid_import(required_imports_of(config@)) == Some(e@),
        },
{
    let mut resolved: Vec<RequiredImport> = Vec::new();
    assert(imports_view(resolved@).to_set() =~= Set::empty());
    let required_imports = match &config.fix_lint_errors {
        Some(fix_lint_errors) => match &fix_lint_errors.required_imports {
            Some(required_imports) => required_imports,
            None => {
                return Ok(resolved);
            },
        },
        None => {
            return Ok(resolved);
        },
    };
    let ghost texts = required_imports_of(config@);
    assert(texts == required_imports@.map_values(|s: String| s@));
    let mut i: usize = 0;
    while i < required_imports.len()
        invariant
            0 <= i <= required_imports@.len(),
            texts == required_imports@.map_values(|s: String| s@),
            texts == required_imports_of(config@),
            imports_view(resolved@).no_duplicates(),
            imports_view(resolved@).to_set() == required_import_set(texts.take(i as int)),
            forall|j: int| 0 <= j < i ==> name_imports_parse(#[trigger] texts[j]) is Ok,
        decreases required_imports@.len() - i,
    {
        let required_import = &required_imports[i];
        assert(texts[i as int] == required_import@);
        match parse_name_imports(required_import.as_str()) {
            Ok(imports) => {
                assert(texts.take(i + 1).drop_last() =~= texts.take(i as int));
                assert(parsed_imports(texts[i as int]) == imports_view(imports@));
                add_new_imports(&mut resolved, imports);
            },
            Err(error) => {
                let mut message = String::from_str("Invalid required import ");
                let quoted = str_to_debug_string(required_import.as_str());
                message.append(quoted.as_str());
                message.append(": ");
                message.append(error.as_str());
                proof {
                    lemma_first_invalid_import_prefix(texts, i as int);
                    let sub = texts.subrange(i as int, texts.len() as int);
                    assert(sub[0] == texts[i as int]);
                }
                return Err(message);
            },
        }
        i = i + 1;
    }
    proof {
        lemma_no_invalid_import(texts);
        assert(texts.take(texts.len() as int) =~= texts);
    }
    Ok(resolved)
}

/// Builds the settings of the lint fixes: the rules given, preview, the line length and tab
/// size when set and not zero (Ruff's defaults otherwise), and the required imports. Fails on
/// the first required import Ruff does not read.
pub fn resolve_linter_settings(config: &Configuration, enabled_rules: &Vec<LintRule>) -> (r: Result<
    LintSettings,
    String,
>)
    ensures
        match r {
            Ok(s) => first_invalid_import(required_imports_of(config@)) is None
                && s@ == lint_settings_of(config@, enabled_rules@)
                && imports_view(s.required_imports@).no_duplicates(),
            Err(e) => first_invalid_import(required_imports_of(config@)) == Some(e@),
        },
{
    let preview = match config.preview {
        Some(value) => value,
        None => false,
    };
    let line_length = match config.line_length {
        Some(length) => if length != 0 { length } else { default_lint_line_length() },
        None => default_lint_line_length(),
    };
    let tab_size = match config.indent_width {
        Some(width) => if width != 0 { width } else { default_lint_tab_size() },
        None => default_lint_tab_size(),
    };
    let required_imports = match resolve_required_imports(config) {
        Ok(imports) => imports,
        Err(e) => {
            return Err(e);
        },
    };
    Ok(LintSettings { rules: enabled_rules.clone(), preview, line_length, tab_size, required_imports })
}

/// Applies the lint fixes the configuration enables: `None` when no rule is enabled or the
/// fixes leave the text as it is, the fixed text otherwise; an invalid required import or
/// Ruff's error fails it. What Ruff's linter gives back is not a function of the text and the
/// settings alone (see `lint_fix_source`), so past the settings this states what holds of
/// every outcome; `format_outcome` states exactly how each outcome is reported.
pub fn apply_lint_fixes(file_path: &str, input_text: &str, config: &Configuration) -> (result: Result<
    Option<String>,
    String,
>)
    ensures
        enabled_rules(config@).len() == 0 ==> result == Ok::<Option<String>, String>(None),
        enabled_rules(config@).len() != 0 ==> match first_invalid_import(required_imports_of(config@)) {
            Some(e) => text_result_view(result) == Err::<Option<Seq<char>>, Seq<char>>(e),
            None => exists|fixed: Result<Seq<char>, Seq<char>>| text_result_view(result)
                == format_result(input_text@, fixed),
        },
{
    let enabled_rules = resolve_enabled_rules(config);
    if enabled_rules.len() == 0 {
        return Ok(None);
    }
    initialize_ruff_linter();
    let settings = match resolve_linter_settings(config, &enabled_rules) {
        Ok(settings) => settings,
        Err(e) => {
            return Err(e);
        },
    };
    let fixed = lint_fix_source(file_path, input_text, &linter_settings(&settings));
    let result = format_outcome(input_text, fixed);
    assert(text_result_view(result) == format_result(input_text@, text_view(fixed)));
    result
}

} // verus!
