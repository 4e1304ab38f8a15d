//! The services that can be asked for a summary of a project, and the
//! requests that are put to them.

use vstd::prelude::*;
use vstd::string::{StrSliceExecFns, StringExecFns};
use crate::text::{
    contains_text, decimal, decimal_text, first_index_of, join_texts, joined_with,
    lemma_first_index_of, lemma_flat_map_none, lemma_flat_map_step, text_before, text_contains,
};
use crate::types::{
    EnumModel, EnumSnapshot, FunctionModel, FunctionSnapshot, RustFileSnapshot, SnapshotModel,
    StructModel, StructSnapshot,
};

verus! {

/// A provider of summaries, with the model to ask.
#[derive(Debug, PartialEq, Eq)]
pub enum AIProvider {
    OpenAI { model: String },
    Google { model: String },
}

impl Clone for AIProvider {
    fn clone(&self) -> (provider: Self)
        ensures
            provider == *self,
    {
        match self {
            AIProvider::OpenAI { model } => AIProvider::OpenAI { model: model.clone() },
            AIProvider::Google { model } => AIProvider::Google { model: model.clone() },
        }
    }
}

/// The sum of a list of counts.
pub open spec fn sum_of(counts: Seq<nat>) -> nat
    decreases counts.len(),
{
    if counts.len() == 0 {
        0
    } else {
        sum_of(counts.drop_last()) + counts.last()
    }
}

/// How many functions a list of files declares.
pub open spec fn total_functions(snapshots: Seq<SnapshotModel>) -> nat {
    sum_of(snapshots.map_values(|s: SnapshotModel| s.functions.len()))
}

/// How many product types a list of files declares.
pub open spec fn total_structs(snapshots: Seq<SnapshotModel>) -> nat {
    sum_of(snapshots.map_values(|s: SnapshotModel| s.structs.len()))
}

/// How many sum types a list of files declares.
pub open spec fn total_enums(snapshots: Seq<SnapshotModel>) -> nat {
    sum_of(snapshots.map_values(|s: SnapshotModel| s.enums.len()))
}

/// The ending of a word that counts `count` things: nothing for one, `s`
/// otherwise.
pub open spec fn plural(count: nat) -> Seq<char> {
    if count == 1 {
        Seq::empty()
    } else {
        "s"@
    }
}

/// The line that the analysis request gives to a function: its name, its
/// parameters, and how many local bindings it has.
pub open spec fn analysis_function_line(f: FunctionModel) -> Seq<char> {
    "- `"@ + f.name + "("@ + joined_with(f.args, ", "@) + ")` - "@ + decimal(f.variables.len())
        + " variables\n"@
}

/// The line that the analysis request gives to a product type: its name, and
/// how many fields and methods it has.
pub open spec fn analysis_struct_line(t: StructModel) -> Seq<char> {
    "- `"@ + t.name + "` - "@ + decimal(t.fields.len()) + " fields, "@ + decimal(t.methods.len())
        + " methods\n"@
}

/// The line that the analysis request gives to a sum type: its name, and how
/// many variants it has.
pub open spec fn analysis_enum_line(e: EnumModel) -> Seq<char> {
    "- `"@ + e.name + "` - "@ + decimal(e.variants.len()) + " variants\n"@
}

/// The functions of a file in the analysis request: a heading, a line for each
/// function, and an empty line; nothing for a file without functions.
pub open spec fn analysis_functions(s: SnapshotModel) -> Seq<char> {
    if s.functions.len() == 0 {
        Seq::empty()
    } else {
        "**Functions:**\n"@
            + s.functions.map_values(|item: FunctionModel| analysis_function_line(item)).flatten()
            + "\n"@
    }
}

/// The product types of a file in the analysis request: a heading, a line for
/// each type, and an empty line; nothing for a file without product types.
pub open spec fn analysis_structs(s: SnapshotModel) -> Seq<char> {
    if s.structs.len() == 0 {
        Seq::empty()
    } else {
        "**Structs:**\n"@
            + s.structs.map_values(|item: StructModel| analysis_struct_line(item)).flatten()
            + "\n"@
    }
}

/// The sum types of a file in the analysis request: a heading, a line for each
/// type, and an empty line; nothing for a file without sum types.
pub open spec fn analysis_enums(s: SnapshotModel) -> Seq<char> {
    if s.enums.len() == 0 {
        Seq::empty()
    } else {
        "**Enums:**\n"@ + s.enums.map_values(|item: EnumModel| analysis_enum_line(item)).flatten()
            + "\n"@
    }
}

/// The line that the explanation request gives to a function: its name and how
/// many inputs it takes.
pub open spec fn layman_function_line(f: FunctionModel) -> Seq<char> {
    "- `"@ + f.name + "`: Takes "@ + decimal(f.args.len()) + " input"@ + plural(f.args.len())
        + ", processes data\n"@
}

/// The line that the explanation request gives to a product type: its name and
/// how many pieces of information it holds.
pub open spec fn layman_struct_line(t: StructModel) -> Seq<char> {
    "- `"@ + t.name + "`: A container with "@ + decimal(t.fields.len()) + " piece"@
        + plural(t.fields.len()) + " of information\n"@
}

/// The line that the explanation request gives to a sum type: its name and how
/// many states it tells apart.
pub open spec fn layman_enum_line(e: EnumModel) -> Seq<char> {
    "- `"@ + e.name + "`: Represents "@ + decimal(e.variants.len())
        + " different possible states or types\n"@
}

/// The functions of a file in the explanation request: a sentence that counts
/// them, a line for each function, and an empty line; nothing for a file
/// without functions.
pub open spec fn layman_functions(s: SnapshotModel) -> Seq<char> {
    if s.functions.len() == 0 {
        Seq::empty()
    } else {
        "This file has "@ + decimal(s.functions.len())
            + " functions (tasks the program can do):\n\n"@
            + s.functions.map_values(|item: FunctionModel| layman_function_line(item)).flatten()
            + "\n"@
    }
}

/// The product types of a file in the explanation request: a sentence that
/// counts them, a line for each type, and an empty line; nothing for a file
/// without product types.
pub open spec fn layman_structs(s: SnapshotModel) -> Seq<char> {
    if s.structs.len() == 0 {
        Seq::empty()
    } else {
        "This file defines "@ + decimal(s.structs.len()) + " data structure"@
            + plural(s.structs.len()) + ":\n\n"@
            + s.structs.map_values(|item: StructModel| layman_struct_line(item)).flatten() + "\n"@
    }
}

/// The sum types of a file in the explanation request: a line for each type,
/// and an empty line; nothing for a file without sum types.
pub open spec fn layman_enums(s: SnapshotModel) -> Seq<char> {
    if s.enums.len() == 0 {
        Seq::empty()
    } else {
        s.enums.map_values(|item: EnumModel| layman_enum_line(item)).flatten() + "\n"@
    }
}

/// What the analysis request says of one file: its path, then its
/// functions, its product types and its sum types.
pub open spec fn analysis_file(s: SnapshotModel) -> Seq<char> {
    "### File: "@ + s.path + "\n\n"@ + analysis_functions(s) + analysis_structs(s)
        + analysis_enums(s)
}

/// What the explanation request says of one file: its path, then its
/// functions, its product types and its sum types.
pub open spec fn layman_file(s: SnapshotModel) -> Seq<char> {
    "### File: "@ + s.path + "\n\n"@ + "**What this file contains:**\n\n"@ + layman_functions(s)
        + layman_structs(s) + layman_enums(s)
}

/// The opening of the analysis request: the title and the overview of the
/// project with its counts.
pub open spec fn analysis_opening(snapshots: Seq<SnapshotModel>) -> Seq<char> {
    "# Rust Project Analysis Request\n\n"@ + "## Project Overview\n"@ + "- Files: "@
        + decimal(snapshots.len()) + "\n"@ + "- Functions: "@
        + decimal(total_functions(snapshots)) + "\n"@ + "- Structs: "@
        + decimal(total_structs(snapshots)) + "\n"@ + "- Enums: "@
        + decimal(total_enums(snapshots)) + "\n"@ + "\n## Code Structure\n\n"@
}

/// The closing of the analysis request: what the analysis is to cover.
pub open spec fn analysis_closing() -> Seq<char> {
    "\n## Analysis Request\n\n"@ + "Provide a comprehensive code quality analysis including:\n"@
        + "1. **Architecture insights**: Overall design patterns and structure\n"@
        + "2. **Code quality suggestions**: Naming, complexity, best practices\n"@
        + "3. **Potential improvements**: Refactoring opportunities, missing abstractions\n"@
        + "4. **Anti-patterns**: Any detected code smells or anti-patterns\n"@
        + "5. **Quality score**: Rate the codebase from 0-100\n\n"@
        + "Focus on actionable, specific suggestions. Be concise but thorough.\n"@
}

/// The opening of the explanation request: the title and whom to address.
pub open spec fn layman_opening() -> Seq<char> {
    "# Explain This Codebase in Simple Terms\n\n"@
        + "You are explaining code to someone with NO programming experience.\n"@
        + "Use analogies, simple language, and focus on WHAT it does and WHY.\n\n"@
        + "## Project Structure\n\n"@
}

/// The closing of the explanation request: the task and its rules.
pub open spec fn layman_closing() -> Seq<char> {
    "\n## Your Task\n\n"@ + "For EACH file, explain:\n\n"@
        + "1. **Purpose**: What is this file's job in simple terms?\n"@
        + "2. **Functionality**: What does it actually DO? (use real-world analogies)\n"@
        + "3. **Key Components**: What are the main building blocks?\n"@
        + "4. **How It Works**: Describe the logic flow in simple steps\n\n"@ + "Rules:\n"@
        + "- NO jargon (avoid terms like 'instantiate', 'iterate', 'polymorphism')\n"@
        + "- USE analogies (e.g., 'like a recipe', 'like a filing cabinet')\n"@
        + "- Focus on PURPOSE, not syntax\n"@
        + "- Explain as if talking to a curious 12-year-old\n"@
        + "- Use emojis to make it engaging\n\n"@
}

/// The request for an analysis of a project: the opening, every file in
/// order, and the closing.
pub open spec fn project_context(snapshots: Seq<SnapshotModel>) -> Seq<char> {
    analysis_opening(snapshots) + snapshots.map_values(
        |s: SnapshotModel| analysis_file(s),
    ).flatten() + analysis_closing()
}

/// The request for an explanation of a project in simple terms: the opening,
/// every file in order, and the closing.
pub open spec fn layman_context(snapshots: Seq<SnapshotModel>) -> Seq<char> {
    layman_opening() + snapshots.map_values(|s: SnapshotModel| layman_file(s)).flatten()
        + layman_closing()
}

/// The ending of a word that counts `count` things.
fn plural_ending(count: usize) -> (ending: &'static str)
    ensures
        ending@ == plural(count as nat),
{
    if count == 1 {
        proof {
            reveal_strlit("");
        }
        let ending = "";
        ending
    } else {
        "s"
    }
}

/// Appends the line of a function to an analysis request.
fn append_analysis_function(f: &FunctionSnapshot, context: &mut String)
    ensures
        final(context)@ == old(context)@ + analysis_function_line(f@),
{
    let mut line = String::new();
    line.append("- `");
    line.append(f.name.as_str());
    line.append("(");
    line.append(join_texts(&f.args, ", ").as_str());
    line.append(")` - ");
    line.append(decimal_text(f.variables.len() as u128).as_str());
    line.append(" variables\n");
    assert(Seq::<char>::empty() + analysis_function_line(f@) =~= analysis_function_line(f@));
    context.append(line.as_str());
}

/// Appends the line of a product type to an analysis request.
fn append_analysis_struct(t: &StructSnapshot, context: &mut String)
    ensures
        final(context)@ == old(context)@ + analysis_struct_line(t@),
{
    let mut line = String::new();
    line.append("- `");
    line.append(t.name.as_str());
    line.append("` - ");
    line.append(decimal_text(t.fields.len() as u128).as_str());
    line.append(" fields, ");
    line.append(decimal_text(t.methods.len() as u128).as_str());
    line.append(" methods\n");
    assert(Seq::<char>::empty() + analysis_struct_line(t@) =~= analysis_struct_line(t@));
    context.append(line.as_str());
}

/// Appends the line of a sum type to an analysis request.
fn append_analysis_enum(e: &EnumSnapshot, context: &mut String)
    ensures
        final(context)@ == old(context)@ + analysis_enum_line(e@),
{
    let mut line = String::new();
    line.append("- `");
    line.append(e.name.as_str());
    line.append("` - ");
    line.append(decimal_text(e.variants.len() as u128).as_str());
    line.append(" variants\n");
    assert(Seq::<char>::empty() + analysis_enum_line(e@) =~= analysis_enum_line(e@));
    context.append(line.as_str());
}

/// Appends the line of a function to an explanation request.
fn append_layman_function(f: &FunctionSnapshot, context: &mut String)
    ensures
        final(context)@ == old(context)@ + layman_function_line(f@),
{
    let mut line = String::new();
    line.append("- `");
    line.append(f.name.as_str());
    line.append("`: Takes ");
    line.append(decimal_text(f.args.len() as u128).as_str());
    line.append(" input");
    line.append(plural_ending(f.args.len()));
    line.append(", processes data\n");
    assert(Seq::<char>::empty() + layman_function_line(f@) =~= layman_function_line(f@));
    context.append(line.as_str());
}

/// Appends the line of a product type to an explanation request.
fn append_layman_struct(t: &StructSnapshot, context: &mut String)
    ensures
        final(context)@ == old(context)@ + layman_struct_line(t@),
{
    let mut line = String::new();
    line.append("- `");
    line.append(t.name.as_str());
    line.append("`: A container with ");
    line.append(decimal_text(t.fields.len() as u128).as_str());
    line.append(" piece");
    line.append(plural_ending(t.fields.len()));
    line.append(" of information\n");
    assert(Seq::<char>::empty() + layman_struct_line(t@) =~= layman_struct_line(t@));
    context.append(line.as_str());
}

/// Appends the line of a sum type to an explanation request.
fn append_layman_enum(e: &EnumSnapshot, context: &mut String)
    ensures
        final(context)@ == old(context)@ + layman_enum_line(e@),
{
    let mut line = String::new();
    line.append("- `");
    line.append(e.name.as_str());
    line.append("`: Represents ");
    line.append(decimal_text(e.variants.len() as u128).as_str());
    line.append(" different possible states or types\n");
    assert(Seq::<char>::empty() + layman_enum_line(e@) =~= layman_enum_line(e@));
    context.append(line.as_str());
}

/// Appends to `context` the functions of a file in the analysis request.
fn append_analysis_functions(snapshot: &RustFileSnapshot, context: &mut String)
    ensures
        final(context)@ == old(context)@ + analysis_functions(snapshot@),
{
    let ghost start = context@;
    assert(start + Seq::<char>::empty() =~= start);
    if snapshot.functions.len() > 0 {
        let mut part = String::new();
        part.append("**Functions:**\n");
        let ghost base = part@;
        let ghost all = snapshot@.functions;
        let ghost each = |item: FunctionModel| analysis_function_line(item);
        let mut i: usize = 0;
        proof {
            lemma_flat_map_none(all, each);
            assert(base + Seq::<char>::empty() =~= base);
        }
        while i < snapshot.functions.len()
            invariant
                i <= snapshot.functions.len(),
                all == snapshot@.functions,
                each == |item: FunctionModel| analysis_function_line(item),
                part@ == base + all.take(i as int).map_values(each).flatten(),
            decreases snapshot.functions.len() - i,
        {
            proof {
                lemma_flat_map_step(all, each, i as int);
            }
            append_analysis_function(&snapshot.functions[i], &mut part);
            i += 1;
        }
        part.append("\n");
        assert(part@ =~= analysis_functions(snapshot@));
        context.append(part.as_str());
    }
}

/// Appends to `context` the product types of a file in the analysis request.
fn append_analysis_structs(snapshot: &RustFileSnapshot, context: &mut String)
    ensures
        final(context)@ == old(context)@ + analysis_structs(snapshot@),
{
    if snapshot.structs.len() > 0 {
        let mut part = String::new();
        part.append("**Structs:**\n");
        let ghost base = part@;
        let ghost all = snapshot@.structs;
        let ghost each = |item: StructModel| analysis_struct_line(item);
        let mut i: usize = 0;
        proof {
            lemma_flat_map_none(all, each);
            assert(base + Seq::<char>::empty() =~= base);
        }
        while i < snapshot.structs.len()
            invariant
                i <= snapshot.structs.len(),
                all == snapshot@.structs,
                each == |item: StructModel| analysis_struct_line(item),
                part@ == base + all.take(i as int).map_values(each).flatten(),
            decreases snapshot.structs.len() - i,
        {
            proof {
                lemma_flat_map_step(all, each, i as int);
            }
            append_analysis_struct(&snapshot.structs[i], &mut part);
            i += 1;
        }
        part.append("\n");
        assert(part@ =~= analysis_structs(snapshot@));
        context.append(part.as_str());
    }
}

/// Appends to `context` the sum types of a file in the analysis request.
fn append_analysis_enums(snapshot: &RustFileSnapshot, context: &mut String)
    ensures
        final(context)@ == old(context)@ + analysis_enums(snapshot@),
{
    if snapshot.enums.len() > 0 {
        let mut part = String::new();
        part.append("**Enums:**\n");
        let ghost base = part@;
        let ghost all = snapshot@.enums;
        let ghost each = |item: EnumModel| analysis_enum_line(item);
        let mut i: usize = 0;
        proof {
            lemma_flat_map_none(all, each);
        }
        while i < snapshot.enums.len()
            invariant
                i <= snapshot.enums.len(),
                all == snapshot@.enums,
                each == |item: EnumModel| analysis_enum_line(item),
                part@ == base + all.take(i as int).map_values(each).flatten(),
            decreases snapshot.enums.len() - i,
        {
            proof {
                assert(all[i as int] == snapshot.enums[i as int]@);
                lemma_flat_map_step(all, each, i as int);
            }
            append_analysis_enum(&snapshot.enums[i], &mut part);
            i += 1;
        }
        part.append("\n");
        assert(part@ =~= analysis_enums(snapshot@));
        context.append(part.as_str());
    }
}

/// Appends to `context` the functions of a file in the explanation request.
fn append_layman_functions(snapshot: &RustFileSnapshot, context: &mut String)
    ensures
        final(context)@ == old(context)@ + layman_functions(snapshot@),
{
    let ghost start = context@;
    assert(start + Seq::<char>::empty() =~= start);
    if snapshot.functions.len() > 0 {
        let mut part = String::new();
        part.append("This file has ");
        part.append(decimal_text(snapshot.functions.len() as u128).as_str());
        part.append(" functions (tasks the program can do):\n\n");
        let ghost base = part@;
        let ghost all = snapshot@.functions;
        let ghost each = |item: FunctionModel| layman_function_line(item);
        let mut i: usize = 0;
        proof {
            lemma_flat_map_none(all, each);
        }
        while i < snapshot.functions.len()
            invariant
                i <= snapshot.functions.len(),
                all == snapshot@.functions,
                each == |item: FunctionModel| layman_function_line(item),
                part@ == base + all.take(i as int).map_values(each).flatten(),
            decreases snapshot.functions.len() - i,
        {
            proof {
                assert(all[i as int] == snapshot.functions[i as int]@);
                lemma_flat_map_step(all, each, i as int);
            }
            append_layman_function(&snapshot.functions[i], &mut part);
            i += 1;
        }
        part.append("\n");
        assert(part@ =~= layman_functions(snapshot@));
        context.append(part.as_str());
    }
}

/// Appends to `context` the product types of a file in the explanation request.
fn append_layman_structs(snapshot: &RustFileSnapshot, context: &mut String)
    ensures
        final(context)@ == old(context)@ + layman_structs(snapshot@),
{
    if snapshot.structs.len() > 0 {
        let mut part = String::new();
        part.append("This file defines ");
        part.append(decimal_text(snapshot.structs.len() as u128).as_str());
        part.append(" data structure");
        part.append(plural_ending(snapshot.structs.len()));
        part.append(":\n\n");
        let ghost base = part@;
        let ghost all = snapshot@.structs;
        let ghost each = |item: StructModel| layman_struct_line(item);
        let mut i: usize = 0;
        proof {
            lemma_flat_map_none(all, each);
        }
        while i < snapshot.structs.len()
            invariant
                i <= snapshot.structs.len(),
                all == snapshot@.structs,
                each == |item: StructModel| layman_struct_line(item),
                part@ == base + all.take(i as int).map_values(each).flatten(),
            decreases snapshot.structs.len() - i,
        {
            proof {
                assert(all[i as int] == snapshot.structs[i as int]@);
                lemma_flat_map_step(all, each, i as int);
            }
            append_layman_struct(&snapshot.structs[i], &mut part);
            assert(part@ =~= base + all.take(i as int + 1).map_values(each).flatten());
            i += 1;
        }
        part.append("\n");
        assert(part@ =~= layman_structs(snapshot@));
        context.append(part.as_str());
    }
}

/// Appends to `context` the sum types of a file in the explanation request.
fn append_layman_enums(snapshot: &RustFileSnapshot, context: &mut String)
    ensures
        final(context)@ == old(context)@ + layman_enums(snapshot@),
{
    if snapshot.enums.len() > 0 {
        let mut part = String::new();
        let ghost base = part@;
        let ghost all = snapshot@.enums;
        let ghost each = |item: EnumModel| layman_enum_line(item);
        let mut i: usize = 0;
        proof {
            lemma_flat_map_none(all, each);
            assert(base + Seq::<char>::empty() =~= base);
        }
        while i < snapshot.enums.len()
            invariant
                i <= snapshot.enums.len(),
                all == snapshot@.enums,
                each == |item: EnumModel| layman_enum_line(item),
                part@ == base + all.take(i as int).map_values(each).flatten(),
            decreases snapshot.enums.len() - i,
        {
            proof {
                assert(all[i as int] == snapshot.enums[i as int]@);
                lemma_flat_map_step(all, each, i as int);
            }
            append_layman_enum(&snapshot.enums[i], &mut part);
            assert(part@ =~= base + all.take(i as int + 1).map_values(each).flatten());
            i += 1;
        }
        part.append("\n");
        context.append(part.as_str());
    }
}

/// Appends to `context` what the analysis request says of one file.
fn append_analysis_file(snapshot: &RustFileSnapshot, context: &mut String)
    ensures
        final(context)@ == old(context)@ + analysis_file(snapshot@),
{
    let mut part = String::new();
    part.append("### File: ");
    part.append(snapshot.path.as_str());
    part.append("\n\n");
    append_analysis_functions(snapshot, &mut part);
    append_analysis_structs(snapshot, &mut part);
    append_analysis_enums(snapshot, &mut part);
    assert(part@ =~= analysis_file(snapshot@));
    context.append(part.as_str());
}

/// Appends to `context` what the explanation request says of one file.
fn append_layman_file(snapshot: &RustFileSnapshot, context: &mut String)
    ensures
        final(context)@ == old(context)@ + layman_file(snapshot@),
{
    let mut part = String::new();
    part.append("### File: ");
    part.append(snapshot.path.as_str());
    part.append("\n\n");
    part.append("**What this file contains:**\n\n");
    append_layman_functions(snapshot, &mut part);
    append_layman_structs(snapshot, &mut part);
    append_layman_enums(snapshot, &mut part);
    assert(part@ =~= layman_file(snapshot@));
    context.append(part.as_str());
}

/// Counts the functions, the product types and the sum types of a list of
/// files.
fn count_declarations(snapshots: &[RustFileSnapshot]) -> (totals: (u128, u128, u128))
    ensures
        totals.0 == total_functions(snapshots.deep_view()),
        totals.1 == total_structs(snapshots.deep_view()),
        totals.2 == total_enums(snapshots.deep_view()),
{
    let ghost all = snapshots.deep_view();
    let ghost functions = all.map_values(|s: SnapshotModel| s.functions.len());
    let ghost structs = all.map_values(|s: SnapshotModel| s.structs.len());
    let ghost enums = all.map_values(|s: SnapshotModel| s.enums.len());
    let mut f: u128 = 0;
    let mut t: u128 = 0;
    let mut e: u128 = 0;
    let mut i: usize = 0;
    assert(structs.take(0).len() == 0);
    assert(enums.take(0).len() == 0);
    while i < snapshots.len()
        invariant
            i <= snapshots.len(),
            all == snapshots.deep_view(),
            functions == all.map_values(|s: SnapshotModel| s.functions.len()),
            structs == all.map_values(|s: SnapshotModel| s.structs.len()),
            enums == all.map_values(|s: SnapshotModel| s.enums.len()),
            f == sum_of(functions.take(i as int)),
            t == sum_of(structs.take(i as int)),
            e == sum_of(enums.take(i as int)),
            f <= i * 0xffff_ffff_ffff_ffff,
            t <= i * 0xffff_ffff_ffff_ffff,
            e <= i * 0xffff_ffff_ffff_ffff,
        decreases snapshots.len() - i,
    {
        proof {
            assert(functions.take(i + 1).drop_last() =~= functions.take(i as int));
            assert(structs.take(i + 1).drop_last() =~= structs.take(i as int));
            assert(enums.take(i + 1).drop_last() =~= enums.take(i as int));
            assert((i + 1) * 0xffff_ffff_ffff_ffff <= 0xffff_ffff_ffff_ffff
                * 0xffff_ffff_ffff_ffff) by (nonlinear_arith)
                requires
                    i + 1 <= 0xffff_ffff_ffff_ffff,
            ;
        }
        f = f + snapshots[i].functions.len() as u128;
        t = t + snapshots[i].structs.len() as u128;
        e = e + snapshots[i].enums.len() as u128;
        i += 1;
    }
    assert(functions.take(functions.len() as int) =~= functions);
    assert(structs.take(structs.len() as int) =~= structs);
    assert(enums.take(enums.len() as int) =~= enums);
    (f, t, e)
}

/// Writes the request for an analysis of a project: an overview with the counts
/// of files, functions, product types and sum types; for each file its path and
/// a line for each of its declarations; and the points that the analysis is to
/// cover.
pub fn build_project_context(snapshots: &[RustFileSnapshot]) -> (context: String)
    ensures
        context@ == project_context(snapshots.deep_view()),
{
    let ghost all = snapshots.deep_view();
    let ghost each = |s: SnapshotModel| analysis_file(s);
    let totals = count_declarations(snapshots);
    let mut context = String::new();
    context.append("# Rust Project Analysis Request\n\n");
    context.append("## Project Overview\n");
    context.append("- Files: ");
    context.append(decimal_text(snapshots.len() as u128).as_str());
    context.append("\n");
    context.append("- Functions: ");
    context.append(decimal_text(totals.0).as_str());
    context.append("\n");
    context.append("- Structs: ");
    context.append(decimal_text(totals.1).as_str());
    context.append("\n");
    context.append("- Enums: ");
    context.append(decimal_text(totals.2).as_str());
    context.append("\n");
    context.append("\n## Code Structure\n\n");
    let ghost base = context@;
    let mut i: usize = 0;
    proof {
        lemma_flat_map_none(all, each);
        assert(base + Seq::<char>::empty() =~= base);
    }
    while i < snapshots.len()
        invariant
            i <= snapshots.len(),
            all == snapshots.deep_view(),
            each == |s: SnapshotModel| analysis_file(s),
            context@ == base + all.take(i as int).map_values(each).flatten(),
        decreases snapshots.len() - i,
    {
        proof {
            assert(all[i as int] == snapshots[i as int]@);
            lemma_flat_map_step(all, each, i as int);
        }
        append_analysis_file(&snapshots[i], &mut context);
        assert(context@ =~= base + all.take(i as int + 1).map_values(each).flatten());
        i += 1;
    }
    let mut closing = String::new();
    closing.append("\n## Analysis Request\n\n");
    closing.append("Provide a comprehensive code quality analysis including:\n");
    closing.append("1. **Architecture insights**: Overall design patterns and structure\n");
    closing.append("2. **Code quality suggestions**: Naming, complexity, best practices\n");
    closing.append(
        "3. **Potential improvements**: Refactoring opportunities, missing abstractions\n",
    );
    closing.append("4. **Anti-patterns**: Any detected code smells or anti-patterns\n");
    closing.append("5. **Quality score**: Rate the codebase from 0-100\n\n");
    closing.append("Focus on actionable, specific suggestions. Be concise but thorough.\n");
    assert(closing@ =~= analysis_closing());
    context.append(closing.as_str());
    context
}

/// Writes the request for an explanation of a project in simple terms: whom to
/// address; for each file its path and a line for each of its declarations; and
/// the task with its rules.
pub fn build_layman_context(snapshots: &[RustFileSnapshot]) -> (context: String)
    ensures
        context@ == layman_context(snapshots.deep_view()),
{
    let ghost all = snapshots.deep_view();
    let ghost each = |s: SnapshotModel| layman_file(s);
    let mut context = String::new();
    context.append("# Explain This Codebase in Simple Terms\n\n");
    context.append("You are explaining code to someone with NO programming experience.\n");
    context.append(
        "Use analogies, simple language, and focus on WHAT it does and WHY.\n\n",
    );
    context.append("## Project Structure\n\n");
    let ghost base = context@;
    let mut i: usize = 0;
    proof {
        lemma_flat_map_none(all, each);
        assert(base + Seq::<char>::empty() =~= base);
    }
    while i < snapshots.len()
        invariant
            i <= snapshots.len(),
            all == snapshots.deep_view(),
            each == |s: SnapshotModel| layman_file(s),
            context@ == base + all.take(i as int).map_values(each).flatten(),
        decreases snapshots.len() - i,
    {
        proof {
            assert(all[i as int] == snapshots[i as int]@);
            lemma_flat_map_step(all, each, i as int);
        }
        append_layman_file(&snapshots[i], &mut context);
        i += 1;
    }
    let mut closing = String::new();
    closing.append("\n## Your Task\n\n");
    closing.append("For EACH file, explain:\n\n");
    closing.append("1. **Purpose**: What is this file's job in simple terms?\n");
    closing.append(
        "2. **Functionality**: What does it actually DO? (use real-world analogies)\n",
    );
    closing.append("3. **Key Components**: What are the main building blocks?\n");
    closing.append("4. **How It Works**: Describe the logic flow in simple steps\n\n");
    closing.append("Rules:\n");
    closing.append(
        "- NO jargon (avoid terms like 'instantiate', 'iterate', 'polymorphism')\n",
    );
    closing.append("- USE analogies (e.g., 'like a recipe', 'like a filing cabinet')\n");
    closing.append("- Focus on PURPOSE, not syntax\n");
    closing.append("- Explain as if talking to a curious 12-year-old\n");
    closing.append("- Use emojis to make it engaging\n\n");
    assert(closing@ =~= layman_closing());
    context.append(closing.as_str());
    context
}

/// Whether `char::is_whitespace` holds of a character.
pub uninterp spec fn whitespace(c: char) -> bool;

/// `char::is_whitespace`: whether the character has the Unicode property
/// `White_Space`.
#[verifier::external_body]
fn char_is_whitespace(c: char) -> (r: bool)
    ensures
        r == whitespace(c),
{
    c.is_whitespace()
}

/// A line without the carriage return at its end, if it has one.
pub open spec fn without_return(line: Seq<char>) -> Seq<char> {
    if line.len() > 0 && line.last() == '\r' {
        line.drop_last()
    } else {
        line
    }
}

/// The lines of a text. A line ends with a line feed, or with a carriage
/// return and a line feed, neither of which belongs to it; the last line needs
/// no ending.
pub open spec fn lines_of(text: Seq<char>) -> Seq<Seq<char>>
    decreases text.len(),
{
    if text.len() == 0 {
        Seq::empty()
    } else if 0 <= first_index_of(text, '\n') < text.len() {
        seq![without_return(text_before(text, '\n'))] + lines_of(
            text.skip(first_index_of(text, '\n') + 1),
        )
    } else {
        seq![text]
    }
}

/// How many whitespace characters a text starts with.
pub open spec fn leading_space(text: Seq<char>) -> int
    decreases text.len(),
{
    if text.len() == 0 || !whitespace(text[0]) {
        0
    } else {
        1 + leading_space(text.drop_first())
    }
}

/// How many whitespace characters a text ends with.
pub open spec fn trailing_space(text: Seq<char>) -> int
    decreases text.len(),
{
    if text.len() == 0 || !whitespace(text.last()) {
        0
    } else {
        1 + trailing_space(text.drop_last())
    }
}

/// A text without the whitespace at its start and at its end.
pub open spec fn trimmed(text: Seq<char>) -> Seq<char> {
    if leading_space(text) >= text.len() {
        Seq::empty()
    } else {
        text.subrange(leading_space(text), text.len() - trailing_space(text))
    }
}

/// Whether a line makes a point: it starts with a dash or a star and a space.
pub open spec fn is_point(line: Seq<char>) -> bool {
    line.len() >= 2 && (line[0] == '-' || line[0] == '*') && line[1] == ' '
}

/// The point that a line of a response makes, if it makes one: what follows
/// the mark at the start of the trimmed line.
pub open spec fn point_of(line: Seq<char>) -> Option<Seq<char>> {
    if is_point(trimmed(line)) {
        Some(trimmed(line).skip(2))
    } else {
        None
    }
}

/// The points that a response makes, line by line.
pub open spec fn points_of(content: Seq<char>) -> Seq<Seq<char>> {
    lines_of(content).filter_map(|line: Seq<char>| point_of(line))
}

/// Whether a response speaks of suggestions or of improving.
pub open spec fn speaks_of_suggestions(content: Seq<char>) -> bool {
    contains_text(content, "suggestion"@) || contains_text(content, "improve"@)
}

/// The insights of a response: its points; the whole response where it makes
/// no point.
pub open spec fn insights_of(content: Seq<char>) -> Seq<Seq<char>> {
    if points_of(content).len() == 0 {
        seq![content]
    } else {
        points_of(content)
    }
}

/// The suggestions of a response: its points, where it speaks of suggestions
/// or of improving; else none.
pub open spec fn suggestions_of(content: Seq<char>) -> Seq<Seq<char>> {
    if speaks_of_suggestions(content) {
        points_of(content)
    } else {
        Seq::empty()
    }
}

/// What a response says, point by point.
#[derive(Debug, PartialEq, Eq)]
pub struct ResponsePoints {
    pub insights: Vec<String>,
    pub suggestions: Vec<String>,
}

impl Clone for ResponsePoints {
    fn clone(&self) -> (points: Self)
        ensures
            points.insights.deep_view() == self.insights.deep_view(),
            points.suggestions.deep_view() == self.suggestions.deep_view(),
    {
        let points = ResponsePoints {
            insights: self.insights.clone(),
            suggestions: self.suggestions.clone(),
        };
        assert(points.insights.deep_view() =~= self.insights.deep_view());
        points
    }
}

/// The place that is not behind a marker and has none before it is the first
/// place of the marker.
proof fn lemma_first_index_is(text: Seq<char>, marker: char, k: int)
    requires
        0 <= k <= text.len(),
        forall|j: int| 0 <= j < k ==> text[j] != marker,
        k < text.len() ==> text[k] == marker,
    ensures
        first_index_of(text, marker) == k,
{
    lemma_first_index_of(text, marker);
    let first = first_index_of(text, marker);
    if first < k {
        assert(text[first] == marker);
    }
}

/// The whitespace at the start of a text ends within the text, in front of a
/// character that is none.
proof fn lemma_leading_space(text: Seq<char>)
    ensures
        0 <= leading_space(text) <= text.len(),
        leading_space(text) < text.len() ==> !whitespace(text[leading_space(text)]),
        forall|j: int| 0 <= j < leading_space(text) ==> whitespace(text[j]),
    decreases text.len(),
{
    if text.len() > 0 && whitespace(text[0]) {
        let rest = text.drop_first();
        lemma_leading_space(rest);
        assert forall|j: int| 0 <= j < 1 + leading_space(rest) implies whitespace(text[j]) by {
            if j > 0 {
                assert(rest[j - 1] == text[j]);
            }
        }
    }
}

/// The whitespace at the end of a text starts within the text, behind a
/// character that is none.
proof fn lemma_trailing_space(text: Seq<char>)
    ensures
        0 <= trailing_space(text) <= text.len(),
        trailing_space(text) < text.len() ==> !whitespace(
            text[text.len() - 1 - trailing_space(text)],
        ),
        forall|j: int| text.len() - trailing_space(text) <= j < text.len() ==> whitespace(text[j]),
    decreases text.len(),
{
    if text.len() > 0 && whitespace(text.last()) {
        let rest = text.drop_last();
        lemma_trailing_space(rest);
        assert forall|j: int|
            text.len() - (1 + trailing_space(rest)) <= j < text.len() implies whitespace(
            text[j],
        ) by {
            if j < text.len() - 1 {
                assert(rest[j] == text[j]);
            }
        }
        if trailing_space(rest) < rest.len() {
            assert(rest[rest.len() - 1 - trailing_space(rest)] == text[text.len() - 2
                - trailing_space(rest)]);
        }
    }
}

/// Splits a text into its lines.
pub fn split_lines(content: &str) -> (lines: Vec<String>)
    ensures
        lines.deep_view() == lines_of(content@),
{
    let ghost text = content@;
    let len = content.unicode_len();
    let mut lines: Vec<String> = Vec::new();
    let mut start: usize = 0;
    let mut i: usize = 0;
    let mut after_return = false;
    proof {
        assert(text.skip(0) =~= text);
        assert(lines.deep_view() + lines_of(text) =~= lines_of(text));
    }
    for c in it: content.chars()
        invariant
            it.seq() == text,
            text == content@,
            len == text.len(),
            i == it.index(),
            start <= i,
            after_return == (i > start && text[i - 1] == '\r'),
            forall|k: int| start <= k < i ==> text[k] != '\n',
            lines_of(text) == lines.deep_view() + lines_of(text.skip(start as int)),
    {
        if c == '\n' {
            let end = if after_return {
                i - 1
            } else {
                i
            };
            lines.push(content.substring_char(start, end).to_owned());
            proof {
                let rest = text.skip(start as int);
                lemma_first_index_is(rest, '\n', i - start);
                assert(text_before(rest, '\n') =~= text.subrange(start as int, i as int));
                assert(without_return(text.subrange(start as int, i as int)) =~= text.subrange(
                    start as int,
                    end as int,
                ));
                assert(rest.skip(i - start + 1) =~= text.skip(i + 1));
            }
            start = i + 1;
            after_return = false;
        } else {
            after_return = c == '\r';
        }
        i += 1;
    }
    if start < len {
        let ghost before = lines.deep_view();
        lines.push(content.substring_char(start, len).to_owned());
        proof {
            let rest = text.skip(start as int);
            lemma_first_index_is(rest, '\n', rest.len() as int);
            assert(rest =~= text.subrange(start as int, len as int));
            assert(before + seq![rest] =~= lines.deep_view());
        }
    } else {
        proof {
            assert(text.skip(start as int).len() == 0);
            assert(lines.deep_view() + Seq::<Seq<char>>::empty() =~= lines.deep_view());
        }
    }
    lines
}

/// Takes the whitespace off the start and the end of a text.
pub fn trim_text(line: &str) -> (text: String)
    ensures
        text@ == trimmed(line@),
{
    let ghost all = line@;
    let len = line.unicode_len();
    let mut first: usize = 0;
    let mut end: usize = 0;
    let mut seen = false;
    let mut i: usize = 0;
    for c in it: line.chars()
        invariant
            it.seq() == all,
            all == line@,
            len == all.len(),
            i == it.index(),
            !seen ==> forall|k: int| 0 <= k < i ==> whitespace(all[k]),
            seen ==> first < end <= i,
            seen ==> !whitespace(all[first as int]) && !whitespace(all[end - 1]),
            seen ==> forall|k: int| 0 <= k < first ==> whitespace(all[k]),
            seen ==> forall|k: int| end <= k < i ==> whitespace(all[k]),
    {
        if !char_is_whitespace(c) {
            if !seen {
                first = i;
                seen = true;
            }
            end = i + 1;
        }
        i += 1;
    }
    proof {
        lemma_leading_space(all);
        lemma_trailing_space(all);
        let lead = leading_space(all);
        let trail = trailing_space(all);
        if seen {
            if lead < first {
                assert(whitespace(all[lead]));
            }
            if first < lead {
                assert(!whitespace(all[first as int]));
            }
            if end < len - trail {
                assert(whitespace(all[len - 1 - trail]));
            }
        } else {
            if lead < len {
                assert(whitespace(all[lead]));
            }
        }
    }
    if seen {
        line.substring_char(first, end).to_owned()
    } else {
        String::new()
    }
}

/// Tells whether a line makes a point.
fn makes_point(line: &str) -> (r: bool)
    ensures
        r == is_point(line@),
{
    if line.unicode_len() < 2 {
        return false;
    }
    let mark = line.get_char(0);
    (mark == '-' || mark == '*') && line.get_char(1) == ' '
}

/// Reads a response point by point: every line that, trimmed, starts with a
/// dash or a star and a space makes a point. The insights are the points, or
/// the whole response where it makes none; the suggestions are the points
/// where the response speaks of suggestions or of improving.
pub fn parse_ai_response(content: &str) -> (r: ResponsePoints)
    ensures
        r.insights.deep_view() == insights_of(content@),
        r.suggestions.deep_view() == suggestions_of(content@),
{
    let lines = split_lines(content);
    let ghost all = lines.deep_view();
    let speaks = text_contains(content, "suggestion") || text_contains(content, "improve");
    let mut insights: Vec<String> = Vec::new();
    let mut suggestions: Vec<String> = Vec::new();
    let mut i: usize = 0;
    proof {
        assert(all.take(0).len() == 0);
        assert(insights.deep_view() =~= Seq::empty());
        assert(suggestions.deep_view() =~= Seq::empty());
    }
    while i < lines.len()
        invariant
            i <= lines.len(),
            all == lines.deep_view(),
            speaks == speaks_of_suggestions(content@),
            insights.deep_view() == all.take(i as int).filter_map(
                |line: Seq<char>| point_of(line),
            ),
            speaks ==> suggestions.deep_view() == insights.deep_view(),
            !speaks ==> suggestions.deep_view() == Seq::<Seq<char>>::empty(),
        decreases lines.len() - i,
    {
        let line = trim_text(lines[i].as_str());
        proof {
            assert(all[i as int] == lines[i as int]@);
            all.lemma_filter_map_take_succ(|line: Seq<char>| point_of(line), i as int);
        }
        if makes_point(line.as_str()) {
            let item = line.as_str().substring_char(2, line.as_str().unicode_len()).to_owned();
            let ghost before = insights.deep_view();
            if speaks {
                suggestions.push(item.clone());
                assert(suggestions.deep_view() =~= before.push(item@));
            }
            insights.push(item);
            assert(insights.deep_view() =~= before.push(item@));
        }
        i += 1;
    }
    assert(all.take(all.len() as int) =~= all);
    if insights.len() == 0 {
        insights.push(content.to_owned());
    }
    ResponsePoints { insights, suggestions }
}

} // verus!
