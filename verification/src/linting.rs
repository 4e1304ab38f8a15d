//! The rules of the linter: limits on size and naming conventions, checked
//! against the snapshots of a project.

use vstd::prelude::*;
use vstd::string::StringExecFns;
use crate::config::LintConfig;
use crate::text::{decimal, decimal_text, lemma_flat_map_none, lemma_flat_map_step};
use crate::types::{
    EnumModel, FunctionModel, FunctionSnapshot, RustFileSnapshot, SnapshotModel, StructModel,
};

verus! {

/// Whether `char::is_lowercase` holds of a character.
pub uninterp spec fn lowercase(c: char) -> bool;

/// Whether `char::is_uppercase` holds of a character.
pub uninterp spec fn uppercase(c: char) -> bool;

/// Whether `char::is_numeric` holds of a character.
pub uninterp spec fn numeric(c: char) -> bool;

/// `char::is_lowercase`: whether the character has the Unicode property
/// `Lowercase`.
#[verifier::external_body]
fn char_is_lowercase(c: char) -> (r: bool)
    ensures
        r == lowercase(c),
{
    c.is_lowercase()
}

/// `char::is_uppercase`: whether the character has the Unicode property
/// `Uppercase`.
#[verifier::external_body]
fn char_is_uppercase(c: char) -> (r: bool)
    ensures
        r == uppercase(c),
{
    c.is_uppercase()
}

/// `char::is_numeric`: whether the character is in one of the Unicode general
/// categories for numbers.
#[verifier::external_body]
fn char_is_numeric(c: char) -> (r: bool)
    ensures
        r == numeric(c),
{
    c.is_numeric()
}

/// Whether a character may stand in a snake-case name: a lowercase letter, a
/// number or an underscore.
pub open spec fn snake_char(c: char) -> bool {
    lowercase(c) || numeric(c) || c == '_'
}

/// Whether a name is in snake case: every character is a lowercase letter, a
/// number or an underscore. Leading underscores are allowed like any other.
pub open spec fn snake_case(name: Seq<char>) -> bool {
    forall|i: int| 0 <= i < name.len() ==> snake_char(#[trigger] name[i])
}

/// Whether a name is in Pascal case, as far as the linter looks: it is not
/// empty and starts with an uppercase letter.
pub open spec fn pascal_case(name: Seq<char>) -> bool {
    name.len() > 0 && uppercase(name[0])
}

/// The warning about a function with too many arguments.
pub open spec fn args_warning(function: Seq<char>, path: Seq<char>, count: nat, max: nat) -> Seq<
    char,
> {
    "Warning: Function '"@ + function + "' in '"@ + path + "' has "@ + decimal(count)
        + " arguments (max "@ + decimal(max) + " recommended)"@
}

/// The warning about a product type with too many fields.
pub open spec fn fields_warning(name: Seq<char>, path: Seq<char>, count: nat, max: nat) -> Seq<
    char,
> {
    "Warning: Struct '"@ + name + "' in '"@ + path + "' has "@ + decimal(count) + " fields (max "@
        + decimal(max) + " recommended)"@
}

/// The warning about a function whose name is not in snake case.
pub open spec fn function_case_warning(function: Seq<char>, path: Seq<char>) -> Seq<char> {
    "Warning: Function '"@ + function + "' in '"@ + path + "' should use snake_case"@
}

/// The warning about a local binding whose name is not in snake case.
pub open spec fn variable_case_warning(
    variable: Seq<char>,
    function: Seq<char>,
    path: Seq<char>,
) -> Seq<char> {
    "Warning: Variable '"@ + variable + "' in function '"@ + function + "' ('"@ + path
        + "') should use snake_case"@
}

/// The warning about a product type whose name is not in Pascal case.
pub open spec fn struct_case_warning(name: Seq<char>, path: Seq<char>) -> Seq<char> {
    "Warning: Struct '"@ + name + "' in '"@ + path + "' should use PascalCase"@
}

/// The warning about a sum type whose name is not in Pascal case.
pub open spec fn enum_case_warning(name: Seq<char>, path: Seq<char>) -> Seq<char> {
    "Warning: Enum '"@ + name + "' in '"@ + path + "' should use PascalCase"@
}

/// The warning about a local binding with a discouraged name.
pub open spec fn discouraged_warning(
    variable: Seq<char>,
    function: Seq<char>,
    path: Seq<char>,
) -> Seq<char> {
    "Warning: Discouraged variable name '"@ + variable + "' in function '"@ + function + "' ('"@
        + path + "')"@
}

/// What the limit on arguments finds in one function.
pub open spec fn args_finding(f: FunctionModel, path: Seq<char>, max: usize) -> Option<Seq<char>> {
    if f.args.len() > max {
        Some(args_warning(f.name, path, f.args.len(), max as nat))
    } else {
        None
    }
}

/// What the limit on fields finds in one product type.
pub open spec fn fields_finding(s: StructModel, path: Seq<char>, max: usize) -> Option<Seq<char>> {
    if s.fields.len() > max {
        Some(fields_warning(s.name, path, s.fields.len(), max as nat))
    } else {
        None
    }
}

/// What the convention on function names finds in one function.
pub open spec fn function_case_finding(f: FunctionModel, path: Seq<char>) -> Option<Seq<char>> {
    if snake_case(f.name) {
        None
    } else {
        Some(function_case_warning(f.name, path))
    }
}

/// What the convention on variable names finds in one local binding.
pub open spec fn variable_case_finding(
    v: (Seq<char>, Option<Seq<char>>),
    function: Seq<char>,
    path: Seq<char>,
) -> Option<Seq<char>> {
    if snake_case(v.0) {
        None
    } else {
        Some(variable_case_warning(v.0, function, path))
    }
}

/// What the convention on type names finds in one product type.
pub open spec fn struct_case_finding(s: StructModel, path: Seq<char>) -> Option<Seq<char>> {
    if pascal_case(s.name) {
        None
    } else {
        Some(struct_case_warning(s.name, path))
    }
}

/// What the convention on type names finds in one sum type.
pub open spec fn enum_case_finding(e: EnumModel, path: Seq<char>) -> Option<Seq<char>> {
    if pascal_case(e.name) {
        None
    } else {
        Some(enum_case_warning(e.name, path))
    }
}

/// What the list of discouraged names finds in one local binding.
pub open spec fn discouraged_finding(
    v: (Seq<char>, Option<Seq<char>>),
    function: Seq<char>,
    path: Seq<char>,
    discouraged: Seq<Seq<char>>,
) -> Option<Seq<char>> {
    if discouraged.contains(v.0) {
        Some(discouraged_warning(v.0, function, path))
    } else {
        None
    }
}

/// The warnings of the limit on arguments for one file.
pub open spec fn args_rule(s: SnapshotModel, max: Option<usize>) -> Seq<Seq<char>> {
    match max {
        Some(max) => s.functions.filter_map(|f: FunctionModel| args_finding(f, s.path, max)),
        None => Seq::empty(),
    }
}

/// The warnings of the limit on fields for one file.
pub open spec fn fields_rule(s: SnapshotModel, max: Option<usize>) -> Seq<Seq<char>> {
    match max {
        Some(max) => s.structs.filter_map(|t: StructModel| fields_finding(t, s.path, max)),
        None => Seq::empty(),
    }
}

/// The warnings of the convention on function names for one file.
pub open spec fn function_case_rule(s: SnapshotModel, enforce: Option<bool>) -> Seq<Seq<char>> {
    if enforce == Some(true) {
        s.functions.filter_map(|f: FunctionModel| function_case_finding(f, s.path))
    } else {
        Seq::empty()
    }
}

/// The warnings of the convention on variable names for one function.
pub open spec fn variable_case_findings(f: FunctionModel, path: Seq<char>) -> Seq<Seq<char>> {
    f.variables.filter_map(
        |v: (Seq<char>, Option<Seq<char>>)| variable_case_finding(v, f.name, path),
    )
}

/// The warnings of the convention on variable names for one file, function
/// after function.
pub open spec fn variable_case_rule(s: SnapshotModel, enforce: Option<bool>) -> Seq<Seq<char>> {
    if enforce == Some(true) {
        s.functions.map_values(|f: FunctionModel| variable_case_findings(f, s.path)).flatten()
    } else {
        Seq::empty()
    }
}

/// The warnings of the convention on type names for one file: those on its
/// product types, then those on its sum types.
pub open spec fn type_case_rule(s: SnapshotModel, enforce: Option<bool>) -> Seq<Seq<char>> {
    if enforce == Some(true) {
        s.structs.filter_map(|t: StructModel| struct_case_finding(t, s.path)) + s.enums.filter_map(
            |e: EnumModel| enum_case_finding(e, s.path),
        )
    } else {
        Seq::empty()
    }
}

/// The warnings of the list of discouraged names for one function.
pub open spec fn discouraged_findings(
    f: FunctionModel,
    path: Seq<char>,
    discouraged: Seq<Seq<char>>,
) -> Seq<Seq<char>> {
    f.variables.filter_map(
        |v: (Seq<char>, Option<Seq<char>>)| discouraged_finding(v, f.name, path, discouraged),
    )
}

/// The warnings of the list of discouraged names for one file, function after
/// function.
pub open spec fn discouraged_rule(s: SnapshotModel, discouraged: Option<Seq<Seq<char>>>) -> Seq<
    Seq<char>,
> {
    match discouraged {
        Some(names) => s.functions.map_values(
            |f: FunctionModel| discouraged_findings(f, s.path, names),
        ).flatten(),
        None => Seq::empty(),
    }
}

/// The warnings for one file: rule after rule, each in the order of the
/// file's declarations.
pub open spec fn snapshot_warnings(s: SnapshotModel, config: LintConfig) -> Seq<Seq<char>> {
    args_rule(s, config.complexity.max_args) + fields_rule(s, config.complexity.max_fields)
        + function_case_rule(s, config.naming.enforce_snake_case_functions) + variable_case_rule(
        s,
        config.naming.enforce_snake_case_variables,
    ) + type_case_rule(s, config.naming.enforce_pascal_case_types) + discouraged_rule(
        s,
        config.naming.discouraged_names.deep_view(),
    )
}

/// The warnings for a list of files, file after file; none at all where the
/// linter is switched off.
pub open spec fn lint_warnings(snapshots: Seq<SnapshotModel>, config: LintConfig) -> Seq<
    Seq<char>,
> {
    if config.enabled == Some(false) {
        Seq::empty()
    } else {
        snapshots.map_values(|s: SnapshotModel| snapshot_warnings(s, config)).flatten()
    }
}

/// Tells whether a name is in snake case: whether every character of it is a
/// lowercase letter, a number or an underscore.
pub fn is_snake_case(s: &str) -> (r: bool)
    ensures
        r == snake_case(s@),
{
    let mut ok = true;
    for c in it: s.chars()
        invariant
            it.seq() == s@,
            ok == snake_case(s@.take(it.index() as int)),
    {
        proof {
            let i = it.index() as int;
            if snake_case(s@.take(i + 1)) {
                assert forall|k: int| 0 <= k < i implies snake_char(#[trigger] s@.take(i)[k]) by {}
                assert(s@.take(i + 1)[i] == c);
            }
            if snake_case(s@.take(i)) && snake_char(c) {
                assert forall|k: int| 0 <= k < i + 1 implies snake_char(
                    #[trigger] s@.take(i + 1)[k],
                ) by {}
            }
        }
        if !(char_is_lowercase(c) || char_is_numeric(c) || c == '_') {
            ok = false;
        }
    }
    assert(s@.take(s@.len() as int) =~= s@);
    ok
}

/// Tells whether a name starts with an uppercase letter.
pub fn is_pascal_case(s: &str) -> (r: bool)
    ensures
        r == pascal_case(s@),
{
    let mut chars = s.chars();
    match chars.next() {
        Some(first) => char_is_uppercase(first),
        None => false,
    }
}

/// Writes the warning about a function with too many arguments.
fn args_message(function: &str, path: &str, count: usize, max: usize) -> (text: String)
    ensures
        text@ == args_warning(function@, path@, count as nat, max as nat),
{
    let mut text = "Warning: Function '".to_owned();
    text.append(function);
    text.append("' in '");
    text.append(path);
    text.append("' has ");
    text.append(decimal_text(count as u128).as_str());
    text.append(" arguments (max ");
    text.append(decimal_text(max as u128).as_str());
    text.append(" recommended)");
    text
}

/// Writes the warning about a product type with too many fields.
fn fields_message(name: &str, path: &str, count: usize, max: usize) -> (text: String)
    ensures
        text@ == fields_warning(name@, path@, count as nat, max as nat),
{
    let mut text = "Warning: Struct '".to_owned();
    text.append(name);
    text.append("' in '");
    text.append(path);
    text.append("' has ");
    text.append(decimal_text(count as u128).as_str());
    text.append(" fields (max ");
    text.append(decimal_text(max as u128).as_str());
    text.append(" recommended)");
    text
}

/// Writes the warning about a function whose name is not in snake case.
fn function_case_message(function: &str, path: &str) -> (text: String)
    ensures
        text@ == function_case_warning(function@, path@),
{
    let mut text = "Warning: Function '".to_owned();
    text.append(function);
    text.append("' in '");
    text.append(path);
    text.append("' should use snake_case");
    text
}

/// Writes the warning about a local binding whose name is not in snake case.
fn variable_case_message(variable: &str, function: &str, path: &str) -> (text: String)
    ensures
        text@ == variable_case_warning(variable@, function@, path@),
{
    let mut text = "Warning: Variable '".to_owned();
    text.append(variable);
    text.append("' in function '");
    text.append(function);
    text.append("' ('");
    text.append(path);
    text.append("') should use snake_case");
    text
}

/// Writes the warning about a product type whose name is not in Pascal case.
fn struct_case_message(name: &str, path: &str) -> (text: String)
    ensures
        text@ == struct_case_warning(name@, path@),
{
    let mut text = "Warning: Struct '".to_owned();
    text.append(name);
    text.append("' in '");
    text.append(path);
    text.append("' should use PascalCase");
    text
}

/// Writes the warning about a sum type whose name is not in Pascal case.
fn enum_case_message(name: &str, path: &str) -> (text: String)
    ensures
        text@ == enum_case_warning(name@, path@),
{
    let mut text = "Warning: Enum '".to_owned();
    text.append(name);
    text.append("' in '");
    text.append(path);
    text.append("' should use PascalCase");
    text
}

/// Writes the warning about a local binding with a discouraged name.
fn discouraged_message(variable: &str, function: &str, path: &str) -> (text: String)
    ensures
        text@ == discouraged_warning(variable@, function@, path@),
{
    let mut text = "Warning: Discouraged variable name '".to_owned();
    text.append(variable);
    text.append("' in function '");
    text.append(function);
    text.append("' ('");
    text.append(path);
    text.append("')");
    text
}

/// Checks the limit on arguments against the functions of one file.
fn check_args(snapshot: &RustFileSnapshot, max: Option<usize>, warnings: &mut Vec<String>)
    ensures
        final(warnings).deep_view() == old(warnings).deep_view() + args_rule(snapshot@, max),
{
    let ghost base = warnings.deep_view();
    if let Some(max_args) = max {
        let ghost all = snapshot@.functions;
        let ghost path = snapshot@.path;
        let mut i: usize = 0;
        while i < snapshot.functions.len()
            invariant
                i <= snapshot.functions.len(),
                all == snapshot@.functions,
                path == snapshot@.path,
                warnings.deep_view() == base + all.take(i as int).filter_map(
                    |f: FunctionModel| args_finding(f, path, max_args),
                ),
            decreases snapshot.functions.len() - i,
        {
            let func = &snapshot.functions[i];
            let ghost before = warnings.deep_view();
            proof {
                all.lemma_filter_map_take_succ(
                    |f: FunctionModel| args_finding(f, path, max_args),
                    i as int,
                );
            }
            if func.args.len() > max_args {
                let text = args_message(
                    func.name.as_str(),
                    snapshot.path.as_str(),
                    func.args.len(),
                    max_args,
                );
                warnings.push(text);
                assert(warnings.deep_view() =~= before + seq![text@]);
            }
            i += 1;
        }
        assert(all.take(all.len() as int) =~= all);
    }
}

/// Checks the limit on fields against the product types of one file.
fn check_fields(snapshot: &RustFileSnapshot, max: Option<usize>, warnings: &mut Vec<String>)
    ensures
        final(warnings).deep_view() == old(warnings).deep_view() + fields_rule(snapshot@, max),
{
    let ghost base = warnings.deep_view();
    if let Some(max_fields) = max {
        let ghost all = snapshot@.structs;
        let ghost path = snapshot@.path;
        let mut i: usize = 0;
        while i < snapshot.structs.len()
            invariant
                i <= snapshot.structs.len(),
                all == snapshot@.structs,
                path == snapshot@.path,
                warnings.deep_view() == base + all.take(i as int).filter_map(
                    |t: StructModel| fields_finding(t, path, max_fields),
                ),
            decreases snapshot.structs.len() - i,
        {
            let strct = &snapshot.structs[i];
            let ghost before = warnings.deep_view();
            proof {
                all.lemma_filter_map_take_succ(
                    |t: StructModel| fields_finding(t, path, max_fields),
                    i as int,
                );
            }
            if strct.fields.len() > max_fields {
                let text = fields_message(
                    strct.name.as_str(),
                    snapshot.path.as_str(),
                    strct.fields.len(),
                    max_fields,
                );
                warnings.push(text);
                assert(warnings.deep_view() =~= before + seq![text@]);
            }
            i += 1;
        }
        assert(all.take(all.len() as int) =~= all);
    }
}

/// Checks the convention on function names against the functions of one file.
fn check_function_case(
    snapshot: &RustFileSnapshot,
    enforce: Option<bool>,
    warnings: &mut Vec<String>,
)
    ensures
        final(warnings).deep_view() == old(warnings).deep_view() + function_case_rule(
            snapshot@,
            enforce,
        ),
{
    let ghost base = warnings.deep_view();
    if let Some(true) = enforce {
        let ghost all = snapshot@.functions;
        let ghost path = snapshot@.path;
        let mut i: usize = 0;
        while i < snapshot.functions.len()
            invariant
                i <= snapshot.functions.len(),
                all == snapshot@.functions,
                path == snapshot@.path,
                warnings.deep_view() == base + all.take(i as int).filter_map(
                    |f: FunctionModel| function_case_finding(f, path),
                ),
            decreases snapshot.functions.len() - i,
        {
            let func = &snapshot.functions[i];
            let ghost before = warnings.deep_view();
            proof {
                all.lemma_filter_map_take_succ(
                    |f: FunctionModel| function_case_finding(f, path),
                    i as int,
                );
            }
            if !is_snake_case(func.name.as_str()) {
                let text = function_case_message(func.name.as_str(), snapshot.path.as_str());
                warnings.push(text);
                assert(warnings.deep_view() =~= before + seq![text@]);
            }
            i += 1;
        }
        assert(all.take(all.len() as int) =~= all);
    }
}

/// Checks the convention on variable names against the local bindings of one
/// function.
fn check_variables_of(func: &FunctionSnapshot, path: &str, warnings: &mut Vec<String>)
    ensures
        final(warnings).deep_view() == old(warnings).deep_view() + variable_case_findings(
            func@,
            path@,
        ),
{
    let ghost base = warnings.deep_view();
    let ghost all = func@.variables;
    let ghost name = func@.name;
    let mut i: usize = 0;
    while i < func.variables.len()
        invariant
            i <= func.variables.len(),
            all == func@.variables,
            name == func@.name,
            warnings.deep_view() == base + all.take(i as int).filter_map(
                |v: (Seq<char>, Option<Seq<char>>)| variable_case_finding(v, name, path@),
            ),
        decreases func.variables.len() - i,
    {
        let variable = &func.variables[i].0;
        let ghost before = warnings.deep_view();
        proof {
            all.lemma_filter_map_take_succ(
                |v: (Seq<char>, Option<Seq<char>>)| variable_case_finding(v, name, path@),
                i as int,
            );
        }
        if !is_snake_case(variable.as_str()) {
            let text = variable_case_message(variable.as_str(), func.name.as_str(), path);
            warnings.push(text);
            assert(warnings.deep_view() =~= before + seq![text@]);
        }
        i += 1;
    }
    assert(all.take(all.len() as int) =~= all);
}

/// Checks the convention on variable names against the functions of one file.
fn check_variable_case(
    snapshot: &RustFileSnapshot,
    enforce: Option<bool>,
    warnings: &mut Vec<String>,
)
    ensures
        final(warnings).deep_view() == old(warnings).deep_view() + variable_case_rule(
            snapshot@,
            enforce,
        ),
{
    let ghost base = warnings.deep_view();
    if let Some(true) = enforce {
        let ghost all = snapshot@.functions;
        let ghost path = snapshot@.path;
        let ghost each = |f: FunctionModel| variable_case_findings(f, path);
        let mut i: usize = 0;
        proof {
            lemma_flat_map_none(all, each);
        }
        while i < snapshot.functions.len()
            invariant
                i <= snapshot.functions.len(),
                all == snapshot@.functions,
                path == snapshot@.path,
                each == |f: FunctionModel| variable_case_findings(f, path),
                warnings.deep_view() == base + all.take(i as int).map_values(each).flatten(),
            decreases snapshot.functions.len() - i,
        {
            proof {
                lemma_flat_map_step(all, each, i as int);
            }
            check_variables_of(&snapshot.functions[i], snapshot.path.as_str(), warnings);
            i += 1;
        }
    }
}

/// Checks the convention on type names against the product types and the sum
/// types of one file.
fn check_type_case(snapshot: &RustFileSnapshot, enforce: Option<bool>, warnings: &mut Vec<String>)
    ensures
        final(warnings).deep_view() == old(warnings).deep_view() + type_case_rule(
            snapshot@,
            enforce,
        ),
{
    let ghost base = warnings.deep_view();
    if let Some(true) = enforce {
        let ghost structs = snapshot@.structs;
        let ghost enums = snapshot@.enums;
        let ghost path = snapshot@.path;
        let mut i: usize = 0;
        while i < snapshot.structs.len()
            invariant
                i <= snapshot.structs.len(),
                structs == snapshot@.structs,
                path == snapshot@.path,
                warnings.deep_view() == base + structs.take(i as int).filter_map(
                    |t: StructModel| struct_case_finding(t, path),
                ),
            decreases snapshot.structs.len() - i,
        {
            let strct = &snapshot.structs[i];
            let ghost before = warnings.deep_view();
            proof {
                structs.lemma_filter_map_take_succ(
                    |t: StructModel| struct_case_finding(t, path),
                    i as int,
                );
            }
            if !is_pascal_case(strct.name.as_str()) {
                let text = struct_case_message(strct.name.as_str(), snapshot.path.as_str());
                warnings.push(text);
                assert(warnings.deep_view() =~= before + seq![text@]);
            }
            i += 1;
        }
        assert(structs.take(structs.len() as int) =~= structs);
        let ghost middle = warnings.deep_view();
        let mut j: usize = 0;
        while j < snapshot.enums.len()
            invariant
                j <= snapshot.enums.len(),
                enums == snapshot@.enums,
                path == snapshot@.path,
                warnings.deep_view() == middle + enums.take(j as int).filter_map(
                    |e: EnumModel| enum_case_finding(e, path),
                ),
            decreases snapshot.enums.len() - j,
        {
            let enm = &snapshot.enums[j];
            let ghost before = warnings.deep_view();
            proof {
                enums.lemma_filter_map_take_succ(
                    |e: EnumModel| enum_case_finding(e, path),
                    j as int,
                );
            }
            if !is_pascal_case(enm.name.as_str()) {
                let text = enum_case_message(enm.name.as_str(), snapshot.path.as_str());
                warnings.push(text);
                assert(warnings.deep_view() =~= before + seq![text@]);
            }
            j += 1;
        }
        assert(enums.take(enums.len() as int) =~= enums);
    }
}

/// Tells whether `name` is one of `names`.
fn is_listed(names: &Vec<String>, name: &String) -> (found: bool)
    ensures
        found == names.deep_view().contains(name@),
{
    let mut i: usize = 0;
    while i < names.len()
        invariant
            i <= names.len(),
            forall|k: int| 0 <= k < i ==> names.deep_view()[k] != name@,
        decreases names.len() - i,
    {
        if names[i] == *name {
            assert(names.deep_view()[i as int] == name@);
            return true;
        }
        i += 1;
    }
    false
}

/// Checks the list of discouraged names against the local bindings of one
/// function.
fn check_discouraged_in(
    func: &FunctionSnapshot,
    path: &str,
    discouraged: &Vec<String>,
    warnings: &mut Vec<String>,
)
    ensures
        final(warnings).deep_view() == old(warnings).deep_view() + discouraged_findings(
            func@,
            path@,
            discouraged.deep_view(),
        ),
{
    let ghost base = warnings.deep_view();
    let ghost all = func@.variables;
    let ghost name = func@.name;
    let ghost listed = discouraged.deep_view();
    let mut i: usize = 0;
    while i < func.variables.len()
        invariant
            i <= func.variables.len(),
            all == func@.variables,
            name == func@.name,
            listed == discouraged.deep_view(),
            warnings.deep_view() == base + all.take(i as int).filter_map(
                |v: (Seq<char>, Option<Seq<char>>)| discouraged_finding(v, name, path@, listed),
            ),
        decreases func.variables.len() - i,
    {
        let variable = &func.variables[i].0;
        let ghost before = warnings.deep_view();
        proof {
            all.lemma_filter_map_take_succ(
                |v: (Seq<char>, Option<Seq<char>>)| discouraged_finding(v, name, path@, listed),
                i as int,
            );
        }
        if is_listed(discouraged, variable) {
            let text = discouraged_message(variable.as_str(), func.name.as_str(), path);
            warnings.push(text);
            assert(warnings.deep_view() =~= before + seq![text@]);
        }
        i += 1;
    }
    assert(all.take(all.len() as int) =~= all);
}

/// Checks the list of discouraged names against the functions of one file.
fn check_discouraged(
    snapshot: &RustFileSnapshot,
    discouraged: &Option<Vec<String>>,
    warnings: &mut Vec<String>,
)
    ensures
        final(warnings).deep_view() == old(warnings).deep_view() + discouraged_rule(
            snapshot@,
            discouraged.deep_view(),
        ),
{
    let ghost base = warnings.deep_view();
    if let Some(names) = discouraged {
        let ghost all = snapshot@.functions;
        let ghost path = snapshot@.path;
        let ghost listed = names.deep_view();
        let ghost each = |f: FunctionModel| discouraged_findings(f, path, listed);
        let mut i: usize = 0;
        proof {
            lemma_flat_map_none(all, each);
        }
        while i < snapshot.functions.len()
            invariant
                i <= snapshot.functions.len(),
                all == snapshot@.functions,
                path == snapshot@.path,
                listed == names.deep_view(),
                each == |f: FunctionModel| discouraged_findings(f, path, listed),
                warnings.deep_view() == base + all.take(i as int).map_values(each).flatten(),
            decreases snapshot.functions.len() - i,
        {
            proof {
                lemma_flat_map_step(all, each, i as int);
            }
            check_discouraged_in(
                &snapshot.functions[i],
                snapshot.path.as_str(),
                names,
                warnings,
            );
            i += 1;
        }
    }
}

/// Checks every rule against one file and appends what it finds.
fn lint_snapshot(snapshot: &RustFileSnapshot, config: &LintConfig, warnings: &mut Vec<String>)
    ensures
        final(warnings).deep_view() == old(warnings).deep_view() + snapshot_warnings(
            snapshot@,
            *config,
        ),
{
    check_args(snapshot, config.complexity.max_args, warnings);
    check_fields(snapshot, config.complexity.max_fields, warnings);
    check_function_case(snapshot, config.naming.enforce_snake_case_functions, warnings);
    check_variable_case(snapshot, config.naming.enforce_snake_case_variables, warnings);
    check_type_case(snapshot, config.naming.enforce_pascal_case_types, warnings);
    check_discouraged(snapshot, &config.naming.discouraged_names, warnings);
}

/// Checks the rules of `config` against a list of snapshots. The warnings
/// come file after file; for one file rule after rule, in this order: the
/// limit on arguments, the limit on fields, snake case for functions, snake
/// case for variables, Pascal case for types, discouraged names. Where the
/// linter is switched off there are none.
pub fn lint_snapshots(snapshots: &[RustFileSnapshot], config: &LintConfig) -> (warnings: Vec<
    String,
>)
    ensures
        warnings.deep_view() == lint_warnings(snapshots.deep_view(), *config),
{
    let mut warnings: Vec<String> = Vec::new();
    if let Some(false) = config.enabled {
        return warnings;
    }
    let ghost all = snapshots.deep_view();
    let ghost each = |s: SnapshotModel| snapshot_warnings(s, *config);
    let mut i: usize = 0;
    proof {
        lemma_flat_map_none(all, each);
    }
    while i < snapshots.len()
        invariant
            i <= snapshots.len(),
            all == snapshots.deep_view(),
            each == |s: SnapshotModel| snapshot_warnings(s, *config),
            warnings.deep_view() == all.take(i as int).map_values(each).flatten(),
        decreases snapshots.len() - i,
    {
        proof {
            lemma_flat_map_step(all, each, i as int);
        }
        lint_snapshot(&snapshots[i], config, &mut warnings);
        i += 1;
    }
    warnings
}

} // verus!
