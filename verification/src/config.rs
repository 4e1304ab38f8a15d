//! What a project asks of the linter, and which paths it leaves out.

use vstd::prelude::*;

verus! {

/// Limits on size. A limit that is absent is not checked.
#[derive(Debug, PartialEq, Eq)]
pub struct ComplexityLints {
    pub max_args: Option<usize>,
    pub max_fields: Option<usize>,
    pub max_function_lines: Option<usize>,
    pub max_struct_size: Option<usize>,
}

/// Naming conventions. A convention is checked only where it is set to `true`.
#[derive(Debug, PartialEq, Eq)]
pub struct NamingLints {
    pub enforce_snake_case_functions: Option<bool>,
    pub enforce_snake_case_variables: Option<bool>,
    pub enforce_pascal_case_types: Option<bool>,
    pub enforce_screaming_snake_case_constants: Option<bool>,
    pub discouraged_names: Option<Vec<String>>,
}

/// Matters of style.
#[derive(Debug, PartialEq, Eq)]
pub struct StyleLints {
    pub require_doc_comments: Option<bool>,
    pub warn_todo_comments: Option<bool>,
}

/// The rules of the linter. `enabled` switches all of them off when it is
/// `Some(false)`.
#[derive(Debug, PartialEq, Eq)]
pub struct LintConfig {
    pub enabled: Option<bool>,
    pub complexity: ComplexityLints,
    pub naming: NamingLints,
    pub style: StyleLints,
}

/// The configuration of a project: the rules of the linter, and the patterns
/// of the paths to leave out.
#[derive(Debug, PartialEq, Eq)]
pub struct FurnaceConfig {
    pub lints: LintConfig,
    pub ignore: Vec<String>,
}

impl Default for ComplexityLints {
    /// No limit is set.
    fn default() -> (lints: Self)
        ensures
            lints.max_args is None,
            lints.max_fields is None,
            lints.max_function_lines is None,
            lints.max_struct_size is None,
    {
        ComplexityLints {
            max_args: None,
            max_fields: None,
            max_function_lines: None,
            max_struct_size: None,
        }
    }
}

impl Default for NamingLints {
    /// No convention is enforced and no name is discouraged.
    fn default() -> (lints: Self)
        ensures
            lints.enforce_snake_case_functions is None,
            lints.enforce_snake_case_variables is None,
            lints.enforce_pascal_case_types is None,
            lints.enforce_screaming_snake_case_constants is None,
            lints.discouraged_names is None,
    {
        NamingLints {
            enforce_snake_case_functions: None,
            enforce_snake_case_variables: None,
            enforce_pascal_case_types: None,
            enforce_screaming_snake_case_constants: None,
            discouraged_names: None,
        }
    }
}

impl Default for StyleLints {
    /// Nothing is asked.
    fn default() -> (lints: Self)
        ensures
            lints.require_doc_comments is None,
            lints.warn_todo_comments is None,
    {
        StyleLints { require_doc_comments: None, warn_todo_comments: None }
    }
}

/// Whether a configuration of the linter sets no rule at all.
pub open spec fn sets_no_rule(config: LintConfig) -> bool {
    &&& config.complexity.max_args is None
    &&& config.complexity.max_fields is None
    &&& config.complexity.max_function_lines is None
    &&& config.complexity.max_struct_size is None
    &&& config.naming.enforce_snake_case_functions is None
    &&& config.naming.enforce_snake_case_variables is None
    &&& config.naming.enforce_pascal_case_types is None
    &&& config.naming.enforce_screaming_snake_case_constants is None
    &&& config.naming.discouraged_names is None
    &&& config.style.require_doc_comments is None
    &&& config.style.warn_todo_comments is None
}

impl Default for LintConfig {
    /// The linter is switched on, with no rule set.
    fn default() -> (config: Self)
        ensures
            config.enabled == Some(true),
            sets_no_rule(config),
    {
        LintConfig {
            enabled: Some(true),
            complexity: ComplexityLints::default(),
            naming: NamingLints::default(),
            style: StyleLints::default(),
        }
    }
}

impl Default for FurnaceConfig {
    /// The default rules, and no path left out.
    fn default() -> (config: Self)
        ensures
            config.lints.enabled == Some(true),
            sets_no_rule(config.lints),
            config.ignore@.len() == 0,
    {
        FurnaceConfig { lints: LintConfig::default(), ignore: Vec::new() }
    }
}

/// Whether two lists of naming rules ask the same.
pub open spec fn same_naming(a: NamingLints, b: NamingLints) -> bool {
    &&& a.enforce_snake_case_functions == b.enforce_snake_case_functions
    &&& a.enforce_snake_case_variables == b.enforce_snake_case_variables
    &&& a.enforce_pascal_case_types == b.enforce_pascal_case_types
    &&& a.enforce_screaming_snake_case_constants == b.enforce_screaming_snake_case_constants
    &&& a.discouraged_names.deep_view() == b.discouraged_names.deep_view()
}

/// Whether two configurations of the linter ask the same.
pub open spec fn same_lints(a: LintConfig, b: LintConfig) -> bool {
    &&& a.enabled == b.enabled
    &&& a.complexity == b.complexity
    &&& same_naming(a.naming, b.naming)
    &&& a.style == b.style
}

impl Clone for ComplexityLints {
    fn clone(&self) -> (lints: Self)
        ensures
            lints == *self,
    {
        ComplexityLints {
            max_args: self.max_args,
            max_fields: self.max_fields,
            max_function_lines: self.max_function_lines,
            max_struct_size: self.max_struct_size,
        }
    }
}

impl Clone for NamingLints {
    fn clone(&self) -> (lints: Self)
        ensures
            same_naming(lints, *self),
    {
        let discouraged_names = match &self.discouraged_names {
            Some(names) => {
                let copy = names.clone();
                Some(copy)
            },
            None => None,
        };
        NamingLints {
            enforce_snake_case_functions: self.enforce_snake_case_functions,
            enforce_snake_case_variables: self.enforce_snake_case_variables,
            enforce_pascal_case_types: self.enforce_pascal_case_types,
            enforce_screaming_snake_case_constants: self.enforce_screaming_snake_case_constants,
            discouraged_names,
        }
    }
}

impl Clone for StyleLints {
    fn clone(&self) -> (lints: Self)
        ensures
            lints == *self,
    {
        StyleLints {
            require_doc_comments: self.require_doc_comments,
            warn_todo_comments: self.warn_todo_comments,
        }
    }
}

impl Clone for LintConfig {
    fn clone(&self) -> (config: Self)
        ensures
            same_lints(config, *self),
    {
        LintConfig {
            enabled: self.enabled,
            complexity: self.complexity.clone(),
            naming: self.naming.clone(),
            style: self.style.clone(),
        }
    }
}

impl Clone for FurnaceConfig {
    fn clone(&self) -> (config: Self)
        ensures
            same_lints(config.lints, self.lints),
            config.ignore.deep_view() == self.ignore.deep_view(),
    {
        let ignore = self.ignore.clone();
        FurnaceConfig { lints: self.lints.clone(), ignore }
    }
}

} // verus!
