//! Parsing: from the text of a source file to its declarations.
//!
//! The parser is `syn`. Its syntax tree is opaque here. Small accessors hand
//! out its parts, each part a matter of the node alone and known by a name of
//! its own; verified code puts the parts together as [`SourceItem`]s, and says
//! over those names what it has put together.

use vstd::prelude::*;
use quote::ToTokens;
use crate::syntax::{
    EnumItem, EnumItemModel, FieldList, FunctionItem, FunctionItemModel, ImplItem,
    ImplItemModel, Member, MemberModel, ModuleItem, ModuleItemModel, Parameter, ParameterModel,
    Pattern, PatternModel, SourceItem, SourceItemModel, Statement, StatementModel, StructItem,
    StructItemModel, TraitItem, TraitItemModel,
};

verus! {

/// `syn::File`, of which nothing is known here.
#[verifier::external_type_specification]
#[verifier::external_body]
pub struct ExFile(syn::File);

/// `syn::Item`, of which nothing is known here.
#[verifier::external_type_specification]
#[verifier::external_body]
pub struct ExItem(syn::Item);

/// `syn::ItemFn`, of which nothing is known here.
#[verifier::external_type_specification]
#[verifier::external_body]
pub struct ExItemFn(syn::ItemFn);

/// `syn::ItemImpl`, of which nothing is known here.
#[verifier::external_type_specification]
#[verifier::external_body]
pub struct ExItemImpl(syn::ItemImpl);

/// `syn::FnArg`, of which nothing is known here.
#[verifier::external_type_specification]
#[verifier::external_body]
pub struct ExFnArg(syn::FnArg);

/// `syn::Stmt`, of which nothing is known here.
#[verifier::external_type_specification]
#[verifier::external_body]
pub struct ExStmt(syn::Stmt);

/// `syn::Pat`, of which nothing is known here.
#[verifier::external_type_specification]
#[verifier::external_body]
pub struct ExPat(syn::Pat);

/// The syntax tree that `syn::parse_file` makes of a text, where it accepts
/// the text.
pub uninterp spec fn parsed(content: Seq<char>) -> Option<syn::File>;

/// The top-level items that a syntax tree holds, in file order.
pub uninterp spec fn items_in(file: syn::File) -> Seq<syn::Item>;

/// The function that an item declares, if it declares one.
pub uninterp spec fn function_in(item: syn::Item) -> Option<syn::ItemFn>;

/// The implementation block that an item is, if it is one.
pub uninterp spec fn block_in(item: syn::Item) -> Option<syn::ItemImpl>;

/// The product type that an item declares, if it declares one.
pub uninterp spec fn struct_in(item: syn::Item) -> Option<StructItemModel>;

/// The interface that an item declares, if it declares one.
pub uninterp spec fn trait_in(item: syn::Item) -> Option<TraitItemModel>;

/// The sum type that an item declares, if it declares one.
pub uninterp spec fn enum_in(item: syn::Item) -> Option<EnumItemModel>;

/// The module that an item declares, if it declares one.
pub uninterp spec fn module_in(item: syn::Item) -> Option<ModuleItemModel>;

/// The name of a function.
pub uninterp spec fn name_in(node: syn::ItemFn) -> Seq<char>;

/// The inputs of a function, in order.
pub uninterp spec fn inputs_in(node: syn::ItemFn) -> Seq<syn::FnArg>;

/// The statements of the body of a function, in order.
pub uninterp spec fn statements_in(node: syn::ItemFn) -> Seq<syn::Stmt>;

/// The pattern of an input that is no receiver.
pub uninterp spec fn pattern_in_input(arg: syn::FnArg) -> Option<syn::Pat>;

/// The pattern of a statement that is a `let` binding.
pub uninterp spec fn pattern_in_statement(stmt: syn::Stmt) -> Option<syn::Pat>;

/// The identifier of a pattern that is a single identifier.
pub uninterp spec fn ident_in(pat: syn::Pat) -> Option<Seq<char>>;

/// The pattern inside a pattern with a declared type, and the text of the
/// type.
pub uninterp spec fn typed_in(pat: syn::Pat) -> Option<(syn::Pat, Seq<char>)>;

/// The target of an implementation block, where it is a bare identifier.
pub uninterp spec fn target_in(node: syn::ItemImpl) -> Option<Seq<char>>;

/// The segments of the path of the interface that an implementation block
/// satisfies.
pub uninterp spec fn interface_in(node: syn::ItemImpl) -> Option<Seq<Seq<char>>>;

/// The members of an implementation block, in order.
pub uninterp spec fn members_in(node: syn::ItemImpl) -> Seq<MemberModel>;

/// Whether `syn::parse_file` accepts a text as a source file.
pub open spec fn parses(content: Seq<char>) -> bool {
    parsed(content) is Some
}

/// What a borrowed part stands for: the part itself.
pub open spec fn part<T>(borrowed: Option<&T>) -> Option<T> {
    match borrowed {
        Some(part) => Some(*part),
        None => None,
    }
}

/// `syn::parse_file`: parses the text of a whole source file. The tree that
/// it makes is a matter of the text alone; `None` stands for a text that it
/// rejects.
#[verifier::external_body]
fn parse_file(content: &str) -> (file: Option<syn::File>)
    ensures
        file == parsed(content@),
{
    syn::parse_file(content).ok()
}

/// The field `items` of `syn::File`: the top-level items, in file order, as
/// the tree holds them.
#[verifier::external_body]
fn file_items(file: &syn::File) -> (items: &Vec<syn::Item>)
    ensures
        items@ == items_in(*file),
{
    &file.items
}

/// The variant `Fn` of `syn::Item`: the function that the item holds, and
/// nothing for an item of another variant.
#[verifier::external_body]
fn item_fn(item: &syn::Item) -> (node: Option<&syn::ItemFn>)
    ensures
        part(node) == function_in(*item),
{
    match item {
        syn::Item::Fn(node) => Some(node),
        _ => None,
    }
}

/// The variant `Impl` of `syn::Item`: the block that the item holds, and
/// nothing for an item of another variant.
#[verifier::external_body]
fn item_impl(item: &syn::Item) -> (node: Option<&syn::ItemImpl>)
    ensures
        part(node) == block_in(*item),
{
    match item {
        syn::Item::Impl(node) => Some(node),
        _ => None,
    }
}

/// The variant `Struct` of `syn::Item`: the name of the type and, for
/// `syn::Fields::Named`, the identifier of each field as `syn` holds it. What
/// comes out is a matter of the item alone.
#[verifier::external_body]
fn item_struct(item: &syn::Item) -> (node: Option<StructItem>)
    ensures
        node.deep_view() == struct_in(*item),
{
    match item {
        syn::Item::Struct(node) => Some(StructItem {
            name: node.ident.to_string(),
            fields: match &node.fields {
                syn::Fields::Named(named) => FieldList::Named(
                    named.named.iter().map(|f| f.ident.as_ref().map(|i| i.to_string())).collect(),
                ),
                _ => FieldList::Unnamed,
            },
        }),
        _ => None,
    }
}

/// The variant `Trait` of `syn::Item`: the name of the interface and its
/// members, of which those of the variant `Fn` of `syn::TraitItem` by name.
/// What comes out is a matter of the item alone.
#[verifier::external_body]
fn item_trait(item: &syn::Item) -> (node: Option<TraitItem>)
    ensures
        node.deep_view() == trait_in(*item),
{
    match item {
        syn::Item::Trait(node) => Some(TraitItem {
            name: node.ident.to_string(),
            members: node.items.iter().map(|m| match m {
                syn::TraitItem::Fn(method) => Member::Method(method.sig.ident.to_string()),
                _ => Member::Other,
            }).collect(),
        }),
        _ => None,
    }
}

/// The variant `Enum` of `syn::Item`: the name of the type and the names of
/// its variants. What comes out is a matter of the item alone.
#[verifier::external_body]
fn item_enum(item: &syn::Item) -> (node: Option<EnumItem>)
    ensures
        node.deep_view() == enum_in(*item),
{
    match item {
        syn::Item::Enum(node) => Some(EnumItem {
            name: node.ident.to_string(),
            variants: node.variants.iter().map(|v| v.ident.to_string()).collect(),
        }),
        _ => None,
    }
}

/// The variant `Mod` of `syn::Item`: the name of the module and whether its
/// field `content` holds a body. What comes out is a matter of the item alone.
#[verifier::external_body]
fn item_mod(item: &syn::Item) -> (node: Option<ModuleItem>)
    ensures
        node.deep_view() == module_in(*item),
{
    match item {
        syn::Item::Mod(node) => Some(ModuleItem {
            name: node.ident.to_string(),
            inline: node.content.is_some(),
        }),
        _ => None,
    }
}

/// The identifier of a function, from the field `sig` of `syn::ItemFn`, as
/// the node holds it.
#[verifier::external_body]
fn fn_name(node: &syn::ItemFn) -> (name: String)
    ensures
        name@ == name_in(*node),
{
    node.sig.ident.to_string()
}

/// The inputs of a function, from the field `sig` of `syn::ItemFn`: each of
/// them, in order, as the node holds them.
#[verifier::external_body]
fn fn_inputs(node: &syn::ItemFn) -> (inputs: Vec<&syn::FnArg>)
    ensures
        inputs@.len() == inputs_in(*node).len(),
        forall|i: int| 0 <= i < inputs@.len() ==> *inputs@[i] == inputs_in(*node)[i],
{
    node.sig.inputs.iter().collect()
}

/// The statements of the block of a `syn::ItemFn`, in order, as the node
/// holds them.
#[verifier::external_body]
fn fn_stmts(node: &syn::ItemFn) -> (stmts: &Vec<syn::Stmt>)
    ensures
        stmts@ == statements_in(*node),
{
    &node.block.stmts
}

/// The pattern of the variant `Typed` of `syn::FnArg`, as the input holds it;
/// a receiver has none.
#[verifier::external_body]
fn arg_pattern(arg: &syn::FnArg) -> (pat: Option<&syn::Pat>)
    ensures
        part(pat) == pattern_in_input(*arg),
{
    match arg {
        syn::FnArg::Typed(typed) => Some(&typed.pat),
        syn::FnArg::Receiver(_) => None,
    }
}

/// The pattern of the variant `Local` of `syn::Stmt`, as the statement holds
/// it; a statement of another variant has none.
#[verifier::external_body]
fn stmt_pattern(stmt: &syn::Stmt) -> (pat: Option<&syn::Pat>)
    ensures
        part(pat) == pattern_in_statement(*stmt),
{
    match stmt {
        syn::Stmt::Local(local) => Some(&local.pat),
        _ => None,
    }
}

/// The identifier of the variant `Ident` of `syn::Pat`, as the pattern holds
/// it; a pattern of another variant has none.
#[verifier::external_body]
fn pat_ident(pat: &syn::Pat) -> (name: Option<String>)
    ensures
        name.deep_view() == ident_in(*pat),
{
    match pat {
        syn::Pat::Ident(node) => Some(node.ident.to_string()),
        _ => None,
    }
}

/// The variant `Type` of `syn::Pat`: the pattern inside, and the tokens of
/// the type as `quote::ToTokens::to_token_stream` writes them. Both are a
/// matter of the pattern alone; a pattern of another variant has neither.
#[verifier::external_body]
fn pat_typed(pat: &syn::Pat) -> (typed: Option<(&syn::Pat, String)>)
    ensures
        typed matches Some((inner, ty)) ==> typed_in(*pat) == Some((*inner, ty@)),
        typed is None ==> typed_in(*pat) is None,
{
    match pat {
        syn::Pat::Type(node) => Some((&node.pat, node.ty.to_token_stream().to_string())),
        _ => None,
    }
}

/// The target of a `syn::ItemImpl` where it is a path of a single identifier:
/// what `syn::Path::get_ident` returns for a self type of the variant `Path`.
/// It is a matter of the block alone.
#[verifier::external_body]
fn impl_target(node: &syn::ItemImpl) -> (target: Option<String>)
    ensures
        target.deep_view() == target_in(*node),
{
    match &*node.self_ty {
        syn::Type::Path(path) => path.path.get_ident().map(|ident| ident.to_string()),
        _ => None,
    }
}

/// The identifiers of the segments of the path in the field `trait_` of a
/// `syn::ItemImpl`, in order. They are a matter of the block alone.
#[verifier::external_body]
fn impl_interface(node: &syn::ItemImpl) -> (interface: Option<Vec<String>>)
    ensures
        interface.deep_view() == interface_in(*node),
{
    node.trait_.as_ref().map(|(_, path, _)| {
        path.segments.iter().map(|segment| segment.ident.to_string()).collect()
    })
}

/// The members of a `syn::ItemImpl`, of which those of the variant `Fn` of
/// `syn::ImplItem` by name. They are a matter of the block alone.
#[verifier::external_body]
fn impl_members(node: &syn::ItemImpl) -> (members: Vec<Member>)
    ensures
        members.deep_view() == members_in(*node),
{
    node.items.iter().map(|m| match m {
        syn::ImplItem::Fn(method) => Member::Method(method.sig.ident.to_string()),
        _ => Member::Other,
    }).collect()
}

/// What a pattern reads as: a single identifier, a pattern with a declared
/// type, or anything else.
pub open spec fn read_pattern(pat: syn::Pat) -> PatternModel {
    match ident_in(pat) {
        Some(name) => PatternModel::Ident(name),
        None => match typed_in(pat) {
            Some((inner, ty)) => PatternModel::Typed { ident: ident_in(inner), ty },
            None => PatternModel::Other,
        },
    }
}

/// What an input of a function reads as: a parameter with its pattern, or
/// the receiver.
pub open spec fn read_parameter(arg: syn::FnArg) -> ParameterModel {
    match pattern_in_input(arg) {
        Some(pat) => ParameterModel::Typed(read_pattern(pat)),
        None => ParameterModel::Receiver,
    }
}

/// What a statement reads as: a `let` binding with its pattern, or anything
/// else.
pub open spec fn read_statement(stmt: syn::Stmt) -> StatementModel {
    match pattern_in_statement(stmt) {
        Some(pat) => StatementModel::Local(read_pattern(pat)),
        None => StatementModel::Other,
    }
}

/// What a function of the tree reads as: a declaration with the name of the
/// function, a parameter for each of its inputs and a statement for each
/// statement of its body, in order.
pub open spec fn read_function(node: syn::ItemFn) -> FunctionItemModel {
    FunctionItemModel {
        name: name_in(node),
        params: inputs_in(node).map_values(|arg: syn::FnArg| read_parameter(arg)),
        body: statements_in(node).map_values(|stmt: syn::Stmt| read_statement(stmt)),
    }
}

/// What an implementation block reads as.
pub open spec fn read_block(node: syn::ItemImpl) -> ImplItemModel {
    ImplItemModel {
        target: target_in(node),
        interface: interface_in(node),
        members: members_in(node),
    }
}

/// What an item of the tree reads as: a function, a product type, an
/// interface, a sum type, an implementation block or a module, whichever it
/// is first found to be; else a declaration of another kind.
pub open spec fn read_item(item: syn::Item) -> SourceItemModel {
    if function_in(item) is Some {
        SourceItemModel::Function(read_function(function_in(item)->Some_0))
    } else if struct_in(item) is Some {
        SourceItemModel::Struct(struct_in(item)->Some_0)
    } else if trait_in(item) is Some {
        SourceItemModel::Trait(trait_in(item)->Some_0)
    } else if enum_in(item) is Some {
        SourceItemModel::Enum(enum_in(item)->Some_0)
    } else if block_in(item) is Some {
        SourceItemModel::Impl(read_block(block_in(item)->Some_0))
    } else if module_in(item) is Some {
        SourceItemModel::Module(module_in(item)->Some_0)
    } else {
        SourceItemModel::Other
    }
}

/// What a syntax tree reads as: one declaration for each top-level item, in
/// file order.
pub open spec fn read_file(file: syn::File) -> Seq<SourceItemModel> {
    items_in(file).map_values(|item: syn::Item| read_item(item))
}

/// The declarations that the parse of a text yields, where the text parses.
pub open spec fn read_text(content: Seq<char>) -> Option<Seq<SourceItemModel>> {
    match parsed(content) {
        Some(file) => Some(read_file(file)),
        None => None,
    }
}

/// Reads a pattern: a single identifier, a pattern with a declared type, or
/// anything else.
fn pattern_of(pat: &syn::Pat) -> (pattern: Pattern)
    ensures
        pattern@ == read_pattern(*pat),
{
    match pat_ident(pat) {
        Some(name) => Pattern::Ident(name),
        None => match pat_typed(pat) {
            Some((inner, ty)) => Pattern::Typed { ident: pat_ident(inner), ty },
            None => Pattern::Other,
        },
    }
}

/// Reads a function declaration.
fn function_of(node: &syn::ItemFn) -> (function: FunctionItem)
    ensures
        function@ == read_function(*node),
{
    let inputs = fn_inputs(node);
    let mut params: Vec<Parameter> = Vec::new();
    let mut i: usize = 0;
    while i < inputs.len()
        invariant
            i <= inputs.len(),
            inputs@.len() == inputs_in(*node).len(),
            forall|k: int| 0 <= k < inputs@.len() ==> *inputs@[k] == inputs_in(*node)[k],
            params@.len() == i,
            forall|k: int| 0 <= k < i ==> params@[k]@ == read_parameter(inputs_in(*node)[k]),
        decreases inputs.len() - i,
    {
        match arg_pattern(inputs[i]) {
            Some(pat) => params.push(Parameter::Typed(pattern_of(pat))),
            None => params.push(Parameter::Receiver),
        }
        i += 1;
    }
    let stmts = fn_stmts(node);
    let mut body: Vec<Statement> = Vec::new();
    let mut j: usize = 0;
    while j < stmts.len()
        invariant
            j <= stmts.len(),
            stmts@ == statements_in(*node),
            body@.len() == j,
            forall|k: int| 0 <= k < j ==> body@[k]@ == read_statement(statements_in(*node)[k]),
        decreases stmts.len() - j,
    {
        match stmt_pattern(&stmts[j]) {
            Some(pat) => body.push(Statement::Local(pattern_of(pat))),
            None => body.push(Statement::Other),
        }
        j += 1;
    }
    assert(params.deep_view() =~= read_function(*node).params);
    assert(body.deep_view() =~= read_function(*node).body);
    FunctionItem { name: fn_name(node), params, body }
}

/// Reads one top-level item.
fn source_item(item: &syn::Item) -> (source: SourceItem)
    ensures
        source@ == read_item(*item),
{
    if let Some(node) = item_fn(item) {
        SourceItem::Function(function_of(node))
    } else if let Some(node) = item_struct(item) {
        SourceItem::Struct(node)
    } else if let Some(node) = item_trait(item) {
        SourceItem::Trait(node)
    } else if let Some(node) = item_enum(item) {
        SourceItem::Enum(node)
    } else if let Some(node) = item_impl(item) {
        SourceItem::Impl(
            ImplItem {
                target: impl_target(node),
                interface: impl_interface(node),
                members: impl_members(node),
            },
        )
    } else if let Some(node) = item_mod(item) {
        SourceItem::Module(node)
    } else {
        SourceItem::Other
    }
}

/// Parses the text of a source file into its top-level declarations, in file
/// order. `None` stands for a text that is not a well-formed source file.
pub fn parse_source(content: &str) -> (items: Option<Vec<SourceItem>>)
    ensures
        items.deep_view() == read_text(content@),
        items is Some <==> parses(content@),
{
    match parse_file(content) {
        None => None,
        Some(file) => {
            let nodes = file_items(&file);
            let mut items: Vec<SourceItem> = Vec::new();
            let mut i: usize = 0;
            while i < nodes.len()
                invariant
                    i <= nodes.len(),
                    nodes@ == items_in(file),
                    items.len() == i,
                    forall|k: int| 0 <= k < i ==> (#[trigger] items@[k])@ == read_item(nodes@[k]),
                decreases nodes.len() - i,
            {
                items.push(source_item(&nodes[i]));
                i += 1;
            }
            assert(items.deep_view() =~= read_file(file));
            Some(items)
        },
    }
}

} // verus!
