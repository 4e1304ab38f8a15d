//! Extraction of a file's structural snapshot from its declarations.

use vstd::prelude::*;
use crate::syntax::{
    EnumItem, EnumItemModel, FieldList, FieldsModel, FunctionItem, FunctionItemModel, ImplItem,
    ImplItemModel, Member, MemberModel, Parameter, ParameterModel, Pattern, PatternModel,
    SourceItem, SourceItemModel, Statement, StatementModel, StructItem, StructItemModel,
    TraitItem, TraitItemModel,
};
use crate::text::lemma_filter_map_distributes;
use crate::types::{
    EnumModel, EnumSnapshot, FunctionModel, FunctionSnapshot, ImplModel, ImplSnapshot,
    RustFileSnapshot, SnapshotModel, StructModel, StructSnapshot, TraitModel, TraitSnapshot,
};

verus! {

/// The name that a parameter contributes: that of a typed parameter whose
/// pattern is a single identifier.
pub open spec fn param_name(p: ParameterModel) -> Option<Seq<char>> {
    match p {
        ParameterModel::Typed(PatternModel::Ident(name)) => Some(name),
        _ => None,
    }
}

/// The binding that a statement contributes: that of a `let` whose pattern is
/// a single identifier, with the text of its declared type where it has one.
pub open spec fn local_binding(s: StatementModel) -> Option<(Seq<char>, Option<Seq<char>>)> {
    match s {
        StatementModel::Local(PatternModel::Ident(name)) => Some((name, None)),
        StatementModel::Local(PatternModel::Typed { ident: Some(name), ty }) => Some(
            (name, Some(ty)),
        ),
        _ => None,
    }
}

/// The name of a member that is a method.
pub open spec fn method_name(m: MemberModel) -> Option<Seq<char>> {
    match m {
        MemberModel::Method(name) => Some(name),
        MemberModel::Other => None,
    }
}

/// The simple parameter names of a parameter list, in order.
pub open spec fn param_names(params: Seq<ParameterModel>) -> Seq<Seq<char>> {
    params.filter_map(|p: ParameterModel| param_name(p))
}

/// The simple local bindings of a body, in order.
pub open spec fn local_bindings(body: Seq<StatementModel>) -> Seq<
    (Seq<char>, Option<Seq<char>>),
> {
    body.filter_map(|s: StatementModel| local_binding(s))
}

/// The method names of a member list, in order.
pub open spec fn method_names(members: Seq<MemberModel>) -> Seq<Seq<char>> {
    members.filter_map(|m: MemberModel| method_name(m))
}

/// The snapshot of a function declaration.
pub open spec fn function_model(f: FunctionItemModel) -> FunctionModel {
    FunctionModel {
        name: f.name,
        args: param_names(f.params),
        variables: local_bindings(f.body),
    }
}

/// The named fields of a product type; a tuple-style or unit type has none.
pub open spec fn field_names(fields: FieldsModel) -> Seq<Seq<char>> {
    match fields {
        FieldsModel::Named(names) => names.filter_map(|name: Option<Seq<char>>| name),
        FieldsModel::Unnamed => Seq::empty(),
    }
}

/// The snapshot of a product-type declaration, before any method is attached.
pub open spec fn struct_model(s: StructItemModel) -> StructModel {
    StructModel { name: s.name, fields: field_names(s.fields), methods: Seq::empty() }
}

/// The snapshot of an interface declaration.
pub open spec fn trait_model(t: TraitItemModel) -> TraitModel {
    TraitModel { name: t.name, methods: method_names(t.members) }
}

/// The snapshot of a sum-type declaration, before any method is attached.
pub open spec fn enum_model(e: EnumItemModel) -> EnumModel {
    EnumModel { name: e.name, variants: e.variants, methods: Seq::empty() }
}

/// The name of the interface that a path names: its last segment.
pub open spec fn interface_name(path: Option<Seq<Seq<char>>>) -> Option<Seq<char>> {
    match path {
        Some(segments) => if segments.len() > 0 {
            Some(segments.last())
        } else {
            None
        },
        None => None,
    }
}

/// The snapshot of an implementation block. A block whose target is not a bare
/// identifier has none.
pub open spec fn impl_model(b: ImplItemModel) -> Option<ImplModel> {
    match b.target {
        Some(target) => Some(
            ImplModel {
                for_type: target,
                trait_name: interface_name(b.interface),
                methods: method_names(b.members),
            },
        ),
        None => None,
    }
}

/// The function snapshot that an item contributes.
pub open spec fn function_of(item: SourceItemModel) -> Option<FunctionModel> {
    match item {
        SourceItemModel::Function(f) => Some(function_model(f)),
        _ => None,
    }
}

/// The product-type snapshot that an item contributes.
pub open spec fn struct_of(item: SourceItemModel) -> Option<StructModel> {
    match item {
        SourceItemModel::Struct(s) => Some(struct_model(s)),
        _ => None,
    }
}

/// The interface snapshot that an item contributes.
pub open spec fn trait_of(item: SourceItemModel) -> Option<TraitModel> {
    match item {
        SourceItemModel::Trait(t) => Some(trait_model(t)),
        _ => None,
    }
}

/// The sum-type snapshot that an item contributes.
pub open spec fn enum_of(item: SourceItemModel) -> Option<EnumModel> {
    match item {
        SourceItemModel::Enum(e) => Some(enum_model(e)),
        _ => None,
    }
}

/// The implementation-block snapshot that an item contributes.
pub open spec fn impl_of(item: SourceItemModel) -> Option<ImplModel> {
    match item {
        SourceItemModel::Impl(b) => impl_model(b),
        _ => None,
    }
}

/// The functions declared at the top level of a file, in file order.
pub open spec fn declared_functions(items: Seq<SourceItemModel>) -> Seq<FunctionModel> {
    items.filter_map(|item: SourceItemModel| function_of(item))
}

/// The product types declared at the top level of a file, in file order.
pub open spec fn declared_structs(items: Seq<SourceItemModel>) -> Seq<StructModel> {
    items.filter_map(|item: SourceItemModel| struct_of(item))
}

/// The interfaces declared at the top level of a file, in file order.
pub open spec fn declared_traits(items: Seq<SourceItemModel>) -> Seq<TraitModel> {
    items.filter_map(|item: SourceItemModel| trait_of(item))
}

/// The sum types declared at the top level of a file, in file order.
pub open spec fn declared_enums(items: Seq<SourceItemModel>) -> Seq<EnumModel> {
    items.filter_map(|item: SourceItemModel| enum_of(item))
}

/// The implementation blocks at the top level of a file that target a bare
/// identifier, in file order.
pub open spec fn declared_impls(items: Seq<SourceItemModel>) -> Seq<ImplModel> {
    items.filter_map(|item: SourceItemModel| impl_of(item))
}

/// What a walk over declarations has gathered.
pub struct VisitorModel {
    pub functions: Seq<FunctionModel>,
    pub structs: Seq<StructModel>,
    pub traits: Seq<TraitModel>,
    pub enums: Seq<EnumModel>,
    pub impls: Seq<ImplModel>,
}

/// What has been gathered after one more item.
pub open spec fn after_item(v: VisitorModel, item: SourceItemModel) -> VisitorModel {
    match item {
        SourceItemModel::Function(f) => VisitorModel {
            functions: v.functions.push(function_model(f)),
            ..v
        },
        SourceItemModel::Struct(s) => VisitorModel {
            structs: v.structs.push(struct_model(s)),
            ..v
        },
        SourceItemModel::Trait(t) => VisitorModel { traits: v.traits.push(trait_model(t)), ..v },
        SourceItemModel::Enum(e) => VisitorModel { enums: v.enums.push(enum_model(e)), ..v },
        SourceItemModel::Impl(b) => match impl_model(b) {
            Some(m) => VisitorModel { impls: v.impls.push(m), ..v },
            None => v,
        },
        _ => v,
    }
}

/// What has been gathered after a whole file: each list grows by the
/// declarations of its kind, in file order.
pub open spec fn after_file(v: VisitorModel, items: Seq<SourceItemModel>) -> VisitorModel {
    VisitorModel {
        functions: v.functions + declared_functions(items),
        structs: v.structs + declared_structs(items),
        traits: v.traits + declared_traits(items),
        enums: v.enums + declared_enums(items),
        impls: v.impls + declared_impls(items),
    }
}

/// The methods that the blocks targeting `name` hold, block after block.
pub open spec fn attached_methods(impls: Seq<ImplModel>, name: Seq<char>) -> Seq<Seq<char>>
    decreases impls.len(),
{
    if impls.len() == 0 {
        Seq::empty()
    } else if impls.last().for_type == name {
        attached_methods(impls.drop_last(), name) + impls.last().methods
    } else {
        attached_methods(impls.drop_last(), name)
    }
}

/// Whether a name is that of one of the product types.
pub open spec fn names_struct(structs: Seq<StructModel>, name: Seq<char>) -> bool {
    exists|k: int| 0 <= k < structs.len() && #[trigger] structs[k].name == name
}

/// Whether a name is that of one of the sum types.
pub open spec fn names_enum(enums: Seq<EnumModel>, name: Seq<char>) -> bool {
    exists|k: int| 0 <= k < enums.len() && #[trigger] enums[k].name == name
}

/// The product type at `i` once the blocks of the file are attached: it
/// holds, behind the methods it had, those of every block that targets its
/// name.
pub open spec fn merged_struct(
    structs: Seq<StructModel>,
    impls: Seq<ImplModel>,
    i: int,
) -> StructModel {
    StructModel {
        methods: structs[i].methods + attached_methods(impls, structs[i].name),
        ..structs[i]
    }
}

/// The sum type at `j` once the blocks of the file are attached: it holds,
/// behind the methods it had, those of every block that targets its name.
pub open spec fn merged_enum(enums: Seq<EnumModel>, impls: Seq<ImplModel>, j: int) -> EnumModel {
    EnumModel { methods: enums[j].methods + attached_methods(impls, enums[j].name), ..enums[j] }
}

/// The product types of a file with the methods of its blocks attached.
pub open spec fn merged_structs(structs: Seq<StructModel>, impls: Seq<ImplModel>) -> Seq<
    StructModel,
> {
    Seq::new(structs.len(), |i: int| merged_struct(structs, impls, i))
}

/// The sum types of a file with the methods of its blocks attached.
pub open spec fn merged_enums(enums: Seq<EnumModel>, impls: Seq<ImplModel>) -> Seq<EnumModel> {
    Seq::new(enums.len(), |j: int| merged_enum(enums, impls, j))
}

/// The snapshot that a finished walk yields for the file at `path`.
pub open spec fn finished(v: VisitorModel, path: Seq<char>) -> SnapshotModel {
    SnapshotModel {
        path,
        functions: v.functions,
        structs: merged_structs(v.structs, v.impls),
        traits: v.traits,
        enums: merged_enums(v.enums, v.impls),
        impls: v.impls,
    }
}

/// Nothing gathered yet.
pub open spec fn empty_visitor() -> VisitorModel {
    VisitorModel {
        functions: Seq::empty(),
        structs: Seq::empty(),
        traits: Seq::empty(),
        enums: Seq::empty(),
        impls: Seq::empty(),
    }
}

/// The snapshot of the file at `path` whose top-level declarations are `items`.
pub open spec fn file_snapshot(path: Seq<char>, items: Seq<SourceItemModel>) -> SnapshotModel {
    finished(after_file(empty_visitor(), items), path)
}

/// Collects the method names of a member list.
fn collect_methods(members: &Vec<Member>) -> (names: Vec<String>)
    ensures
        names.deep_view() == method_names(members.deep_view()),
{
    let mut names: Vec<String> = Vec::new();
    let mut i: usize = 0;
    while i < members.len()
        invariant
            i <= members.len(),
            names.deep_view() == method_names(members.deep_view().take(i as int)),
        decreases members.len() - i,
    {
        match &members[i] {
            Member::Method(name) => {
                names.push(name.clone());
            },
            Member::Other => {},
        }
        proof {
            assert(members.deep_view()[i as int] == members[i as int]@);
            members.deep_view().lemma_filter_map_take_succ(
                |m: MemberModel| method_name(m),
                i as int,
            );
        }
        i += 1;
    }
    assert(members.deep_view().take(members.len() as int) =~= members.deep_view());
    names
}

/// Collects the names of the fields that have one.
fn collect_fields(fields: &Vec<Option<String>>) -> (names: Vec<String>)
    ensures
        names.deep_view() == fields.deep_view().filter_map(|name: Option<Seq<char>>| name),
{
    let mut names: Vec<String> = Vec::new();
    let mut i: usize = 0;
    while i < fields.len()
        invariant
            i <= fields.len(),
            names.deep_view() == fields.deep_view().take(i as int).filter_map(
                |name: Option<Seq<char>>| name,
            ),
        decreases fields.len() - i,
    {
        if let Some(name) = &fields[i] {
            names.push(name.clone());
        }
        proof {
            fields.deep_view().lemma_filter_map_take_succ(
                |name: Option<Seq<char>>| name,
                i as int,
            );
        }
        i += 1;
    }
    assert(fields.deep_view().take(fields.len() as int) =~= fields.deep_view());
    names
}

/// Collects the simple parameter names of a parameter list.
fn collect_params(params: &Vec<Parameter>) -> (names: Vec<String>)
    ensures
        names.deep_view() == param_names(params.deep_view()),
{
    let mut names: Vec<String> = Vec::new();
    let mut i: usize = 0;
    while i < params.len()
        invariant
            i <= params.len(),
            names.deep_view() == param_names(params.deep_view().take(i as int)),
        decreases params.len() - i,
    {
        match &params[i] {
            Parameter::Typed(Pattern::Ident(name)) => {
                names.push(name.clone());
            },
            _ => {},
        }
        proof {
            assert(params.deep_view()[i as int] == params[i as int]@);
            params.deep_view().lemma_filter_map_take_succ(
                |p: ParameterModel| param_name(p),
                i as int,
            );
        }
        i += 1;
    }
    assert(params.deep_view().take(params.len() as int) =~= params.deep_view());
    names
}

/// Collects the simple local bindings of a body.
fn collect_locals(body: &Vec<Statement>) -> (locals: Vec<(String, Option<String>)>)
    ensures
        locals.deep_view() == local_bindings(body.deep_view()),
{
    let mut locals: Vec<(String, Option<String>)> = Vec::new();
    let mut i: usize = 0;
    while i < body.len()
        invariant
            i <= body.len(),
            locals.deep_view() == local_bindings(body.deep_view().take(i as int)),
        decreases body.len() - i,
    {
        match &body[i] {
            Statement::Local(Pattern::Ident(name)) => {
                locals.push((name.clone(), None));
            },
            Statement::Local(Pattern::Typed { ident: Some(name), ty }) => {
                locals.push((name.clone(), Some(ty.clone())));
            },
            _ => {},
        }
        proof {
            assert(body.deep_view()[i as int] == body[i as int]@);
            body.deep_view().lemma_filter_map_take_succ(
                |s: StatementModel| local_binding(s),
                i as int,
            );
        }
        i += 1;
    }
    assert(body.deep_view().take(body.len() as int) =~= body.deep_view());
    locals
}

/// Gathers the declarations of a file, kind by kind, in the order in which
/// they are visited.
#[derive(Debug)]
pub struct SnapshotVisitor {
    pub functions: Vec<FunctionSnapshot>,
    pub structs: Vec<StructSnapshot>,
    pub traits: Vec<TraitSnapshot>,
    pub enums: Vec<EnumSnapshot>,
    pub impls: Vec<ImplSnapshot>,
}

impl View for SnapshotVisitor {
    type V = VisitorModel;

    open spec fn view(&self) -> VisitorModel {
        VisitorModel {
            functions: self.functions.deep_view(),
            structs: self.structs.deep_view(),
            traits: self.traits.deep_view(),
            enums: self.enums.deep_view(),
            impls: self.impls.deep_view(),
        }
    }
}

impl Default for SnapshotVisitor {
    fn default() -> (v: Self)
        ensures
            v@ == empty_visitor(),
    {
        let v = SnapshotVisitor {
            functions: Vec::new(),
            structs: Vec::new(),
            traits: Vec::new(),
            enums: Vec::new(),
            impls: Vec::new(),
        };
        assert(v.functions.deep_view() =~= Seq::empty());
        assert(v.structs.deep_view() =~= Seq::empty());
        assert(v.traits.deep_view() =~= Seq::empty());
        assert(v.enums.deep_view() =~= Seq::empty());
        assert(v.impls.deep_view() =~= Seq::empty());
        v
    }
}

impl SnapshotVisitor {
    /// Records a function declaration.
    pub fn visit_item_fn(&mut self, node: &FunctionItem)
        ensures
            final(self)@ == (VisitorModel {
                functions: old(self)@.functions.push(function_model(node@)),
                ..old(self)@
            }),
    {
        let snapshot = FunctionSnapshot {
            name: node.name.clone(),
            args: collect_params(&node.params),
            variables: collect_locals(&node.body),
        };
        self.functions.push(snapshot);
        assert(self.functions.deep_view() =~= old(self).functions.deep_view().push(
            function_model(node@),
        ));
    }

    /// Records a product-type declaration with its named fields.
    pub fn visit_item_struct(&mut self, node: &StructItem)
        ensures
            final(self)@ == (VisitorModel {
                structs: old(self)@.structs.push(struct_model(node@)),
                ..old(self)@
            }),
    {
        let fields = match &node.fields {
            FieldList::Named(names) => collect_fields(names),
            FieldList::Unnamed => {
                let fields: Vec<String> = Vec::new();
                fields
            },
        };
        let methods: Vec<String> = Vec::new();
        assert(methods.deep_view() =~= Seq::empty());
        self.structs.push(StructSnapshot { name: node.name.clone(), fields, methods });
        assert(self.structs.deep_view() =~= old(self).structs.deep_view().push(
            struct_model(node@),
        ));
    }

    /// Records an interface declaration with the names of its methods.
    pub fn visit_item_trait(&mut self, node: &TraitItem)
        ensures
            final(self)@ == (VisitorModel {
                traits: old(self)@.traits.push(trait_model(node@)),
                ..old(self)@
            }),
    {
        let snapshot = TraitSnapshot {
            name: node.name.clone(),
            methods: collect_methods(&node.members),
        };
        self.traits.push(snapshot);
        assert(self.traits.deep_view() =~= old(self).traits.deep_view().push(trait_model(node@)));
    }

    /// Records a sum-type declaration with the names of its variants.
    pub fn visit_item_enum(&mut self, node: &EnumItem)
        ensures
            final(self)@ == (VisitorModel {
                enums: old(self)@.enums.push(enum_model(node@)),
                ..old(self)@
            }),
    {
        let variants = node.variants.clone();
        let methods: Vec<String> = Vec::new();
        assert(methods.deep_view() =~= Seq::empty());
        self.enums.push(EnumSnapshot { name: node.name.clone(), variants, methods });
        assert(self.enums.deep_view() =~= old(self).enums.deep_view().push(enum_model(node@)));
    }

    /// Records an implementation block, unless its target is not a bare
    /// identifier.
    pub fn visit_item_impl(&mut self, node: &ImplItem)
        ensures
            final(self)@ == (match impl_model(node@) {
                Some(m) => VisitorModel { impls: old(self)@.impls.push(m), ..old(self)@ },
                None => old(self)@,
            }),
    {
        let trait_name = match &node.interface {
            Some(segments) => if segments.len() > 0 {
                Some(segments[segments.len() - 1].clone())
            } else {
                None
            },
            None => None,
        };
        let methods = collect_methods(&node.members);
        if let Some(target) = &node.target {
            self.impls.push(ImplSnapshot { for_type: target.clone(), trait_name, methods });
            assert(self.impls.deep_view() =~= old(self).impls.deep_view().push(
                impl_model(node@).unwrap(),
            ));
        }
    }

    /// Records one top-level declaration, whatever its kind.
    pub fn visit_item(&mut self, item: &SourceItem)
        ensures
            final(self)@ == after_item(old(self)@, item@),
    {
        match item {
            SourceItem::Function(f) => self.visit_item_fn(f),
            SourceItem::Struct(s) => self.visit_item_struct(s),
            SourceItem::Trait(t) => self.visit_item_trait(t),
            SourceItem::Enum(e) => self.visit_item_enum(e),
            SourceItem::Impl(b) => self.visit_item_impl(b),
            _ => {},
        }
    }

    /// Walks the top-level declarations of a file once, in file order.
    pub fn visit_file(&mut self, items: &Vec<SourceItem>)
        ensures
            final(self)@ == after_file(old(self)@, items.deep_view()),
    {
        let mut i: usize = 0;
        while i < items.len()
            invariant
                i <= items.len(),
                self@ == after_file(old(self)@, items.deep_view().take(i as int)),
            decreases items.len() - i,
        {
            self.visit_item(&items[i]);
            proof {
                assert(items.deep_view()[i as int] == items[i as int]@);
                lemma_after_one_more(old(self)@, items.deep_view(), i as int);
            }
            i += 1;
        }
        assert(items.deep_view().take(items.len() as int) =~= items.deep_view());
    }

    /// Ends the walk: attaches to each type the methods of the blocks that
    /// target it, and hands out the snapshot of the file at `path`.
    pub fn finish(self, path: &str) -> (snapshot: RustFileSnapshot)
        ensures
            snapshot@ == finished(self@, path@),
    {
        let mut structs: Vec<StructSnapshot> = Vec::new();
        let mut i: usize = 0;
        while i < self.structs.len()
            invariant
                i <= self.structs.len(),
                structs.deep_view() =~= merged_structs(
                    self.structs.deep_view(),
                    self.impls.deep_view(),
                ).take(i as int),
            decreases self.structs.len() - i,
        {
            let item = &self.structs[i];
            let mut methods = item.methods.clone();
            let more = attached_to(&self.impls, &item.name);
            append_strings(&mut methods, &more);
            let fields = item.fields.clone();
            let ghost before = structs.deep_view();
            let merged = StructSnapshot { name: item.name.clone(), fields, methods };
            structs.push(merged);
            assert(structs.deep_view() =~= before.push(merged@));
            i += 1;
        }
        assert(structs.deep_view() =~= merged_structs(
            self.structs.deep_view(),
            self.impls.deep_view(),
        ));
        let mut enums: Vec<EnumSnapshot> = Vec::new();
        let mut j: usize = 0;
        while j < self.enums.len()
            invariant
                j <= self.enums.len(),
                enums.deep_view() =~= merged_enums(
                    self.enums.deep_view(),
                    self.impls.deep_view(),
                ).take(j as int),
            decreases self.enums.len() - j,
        {
            let item = &self.enums[j];
            let mut methods = item.methods.clone();
            let more = attached_to(&self.impls, &item.name);
            append_strings(&mut methods, &more);
            let variants = item.variants.clone();
            let ghost before = enums.deep_view();
            let merged = EnumSnapshot { name: item.name.clone(), variants, methods };
            enums.push(merged);
            assert(enums.deep_view() =~= before.push(merged@));
            j += 1;
        }
        assert(enums.deep_view() =~= merged_enums(
            self.enums.deep_view(),
            self.impls.deep_view(),
        ));
        RustFileSnapshot {
            path: path.to_owned(),
            functions: self.functions,
            structs,
            traits: self.traits,
            enums,
            impls: self.impls,
        }
    }
}

/// Takes the snapshot of the file at `path` whose top-level declarations are
/// `items`.
pub fn snapshot_of(path: &str, items: &Vec<SourceItem>) -> (snapshot: RustFileSnapshot)
    ensures
        snapshot@ == file_snapshot(path@, items.deep_view()),
{
    let mut visitor = SnapshotVisitor::default();
    visitor.visit_file(items);
    visitor.finish(path)
}

/// Appends copies of the strings of `src` to `dst`.
fn append_strings(dst: &mut Vec<String>, src: &Vec<String>)
    ensures
        final(dst).deep_view() == old(dst).deep_view() + src.deep_view(),
{
    let mut i: usize = 0;
    while i < src.len()
        invariant
            i <= src.len(),
            dst.deep_view() =~= old(dst).deep_view() + src.deep_view().take(i as int),
        decreases src.len() - i,
    {
        let ghost before = dst.deep_view();
        dst.push(src[i].clone());
        assert(dst.deep_view() =~= before.push(src[i as int]@));
        i += 1;
    }
}

/// Gathers the methods of the blocks that target `name`, block after block.
fn attached_to(impls: &Vec<ImplSnapshot>, name: &String) -> (methods: Vec<String>)
    ensures
        methods.deep_view() == attached_methods(impls.deep_view(), name@),
{
    let mut methods: Vec<String> = Vec::new();
    let mut i: usize = 0;
    while i < impls.len()
        invariant
            i <= impls.len(),
            methods.deep_view() == attached_methods(impls.deep_view().take(i as int), name@),
        decreases impls.len() - i,
    {
        proof {
            let next = impls.deep_view().take(i + 1);
            assert(next.drop_last() =~= impls.deep_view().take(i as int));
        }
        if impls[i].for_type == *name {
            append_strings(&mut methods, &impls[i].methods);
        }
        i += 1;
    }
    assert(impls.deep_view().take(impls.len() as int) =~= impls.deep_view());
    methods
}

/// Visiting item `i` after the first `i` items amounts to a walk over the
/// first `i + 1` items.
proof fn lemma_after_one_more(v: VisitorModel, items: Seq<SourceItemModel>, i: int)
    requires
        0 <= i < items.len(),
    ensures
        after_item(after_file(v, items.take(i)), items[i]) == after_file(v, items.take(i + 1)),
{
    items.lemma_filter_map_take_succ(|item: SourceItemModel| function_of(item), i);
    items.lemma_filter_map_take_succ(|item: SourceItemModel| struct_of(item), i);
    items.lemma_filter_map_take_succ(|item: SourceItemModel| trait_of(item), i);
    items.lemma_filter_map_take_succ(|item: SourceItemModel| enum_of(item), i);
    items.lemma_filter_map_take_succ(|item: SourceItemModel| impl_of(item), i);
    let a = after_item(after_file(v, items.take(i)), items[i]);
    let b = after_file(v, items.take(i + 1));
    assert(a.functions =~= b.functions);
    assert(a.structs =~= b.structs);
    assert(a.traits =~= b.traits);
    assert(a.enums =~= b.enums);
    assert(a.impls =~= b.impls);
}

/// The methods attached to a name are the concatenation, in file order, of the
/// method lists of the blocks whose target is exactly that name.
pub proof fn lemma_attached_is_concatenation(impls: Seq<ImplModel>, name: Seq<char>)
    ensures
        attached_methods(impls, name) == impls.filter(|b: ImplModel| b.for_type == name).map_values(
            |b: ImplModel| b.methods,
        ).flatten(),
    decreases impls.len(),
{
    let targets = |b: ImplModel| b.for_type == name;
    let methods = |b: ImplModel| b.methods;
    if impls.len() > 0 {
        let rest = impls.drop_last();
        let last = impls.last();
        lemma_attached_is_concatenation(rest, name);
        assert(rest.push(last) =~= impls);
        rest.lemma_filter_push(last, targets);
        let chosen = rest.filter(targets);
        chosen.map_values(methods).lemma_flatten_and_flatten_alt_are_equivalent();
        if targets(last) {
            let lists = chosen.push(last).map_values(methods);
            assert(lists.drop_last() =~= chosen.map_values(methods));
            lists.lemma_flatten_and_flatten_alt_are_equivalent();
        }
    }
}

/// The methods attached to a name by two runs of blocks, one after the other,
/// are those of the first run followed by those of the second.
pub proof fn lemma_attached_distributes(a: Seq<ImplModel>, b: Seq<ImplModel>, name: Seq<char>)
    ensures
        attached_methods(a + b, name) == attached_methods(a, name) + attached_methods(b, name),
    decreases b.len(),
{
    if b.len() > 0 {
        lemma_attached_distributes(a, b.drop_last(), name);
        assert((a + b).drop_last() =~= a + b.drop_last());
    }
}

/// A type declaration, as the walk records it, has no methods yet.
proof fn lemma_declared_without_methods(items: Seq<SourceItemModel>)
    ensures
        forall|i: int|
            0 <= i < declared_structs(items).len() ==> (#[trigger] declared_structs(
                items,
            )[i]).methods == Seq::<Seq<char>>::empty(),
        forall|j: int|
            0 <= j < declared_enums(items).len() ==> (#[trigger] declared_enums(
                items,
            )[j]).methods == Seq::<Seq<char>>::empty(),
{
    assert forall|i: int| 0 <= i < declared_structs(items).len() implies (
    #[trigger] declared_structs(items)[i]).methods == Seq::<Seq<char>>::empty() by {
        let model = declared_structs(items)[i];
        items.lemma_filter_map_contains(|item: SourceItemModel| struct_of(item), model);
    }
    assert forall|j: int| 0 <= j < declared_enums(items).len() implies (
    #[trigger] declared_enums(items)[j]).methods == Seq::<Seq<char>>::empty() by {
        let model = declared_enums(items)[j];
        items.lemma_filter_map_contains(|item: SourceItemModel| enum_of(item), model);
    }
}

/// In the snapshot of a file, every product type holds the methods of the
/// blocks of that file that target its name, in file order, and nothing else.
/// Its name and fields are those of its declaration.
pub proof fn lemma_struct_methods(path: Seq<char>, items: Seq<SourceItemModel>, i: int)
    requires
        0 <= i < declared_structs(items).len(),
    ensures
        file_snapshot(path, items).structs.len() == declared_structs(items).len(),
        file_snapshot(path, items).structs[i].name == declared_structs(items)[i].name,
        file_snapshot(path, items).structs[i].fields == declared_structs(items)[i].fields,
        file_snapshot(path, items).impls == declared_impls(items),
        file_snapshot(path, items).structs[i].methods == attached_methods(
            file_snapshot(path, items).impls,
            file_snapshot(path, items).structs[i].name,
        ),
{
    lemma_declared_without_methods(items);
}

/// In the snapshot of a file, every sum type holds the methods of the blocks
/// of that file that target its name, in file order, and nothing else. Its
/// name and variants are those of its declaration.
pub proof fn lemma_enum_methods(path: Seq<char>, items: Seq<SourceItemModel>, j: int)
    requires
        0 <= j < declared_enums(items).len(),
    ensures
        file_snapshot(path, items).enums.len() == declared_enums(items).len(),
        file_snapshot(path, items).enums[j].name == declared_enums(items)[j].name,
        file_snapshot(path, items).enums[j].variants == declared_enums(items)[j].variants,
        file_snapshot(path, items).impls == declared_impls(items),
        file_snapshot(path, items).enums[j].methods == attached_methods(
            file_snapshot(path, items).impls,
            file_snapshot(path, items).enums[j].name,
        ),
{
    lemma_declared_without_methods(items);
}

/// A block whose target names no type of the file contributes nothing: with or
/// without it, every product type and every sum type holds the same methods.
pub proof fn lemma_foreign_block_contributes_nothing(
    structs: Seq<StructModel>,
    enums: Seq<EnumModel>,
    before: Seq<ImplModel>,
    block: ImplModel,
    after: Seq<ImplModel>,
)
    requires
        !names_struct(structs, block.for_type),
        !names_enum(enums, block.for_type),
    ensures
        merged_structs(structs, before.push(block) + after) == merged_structs(
            structs,
            before + after,
        ),
        merged_enums(enums, before.push(block) + after) == merged_enums(enums, before + after),
{
    let with = before.push(block) + after;
    let without = before + after;
    assert forall|name: Seq<char>| name != block.for_type implies attached_methods(with, name)
        == attached_methods(without, name) by {
        lemma_attached_distributes(before.push(block), after, name);
        lemma_attached_distributes(before, after, name);
        assert(before.push(block).drop_last() =~= before);
    }
    assert forall|i: int| 0 <= i < structs.len() implies merged_struct(structs, with, i)
        == merged_struct(structs, without, i) by {}
    assert forall|j: int| 0 <= j < enums.len() implies merged_enum(enums, with, j)
        == merged_enum(enums, without, j) by {}
}

/// What a walk gathers from two runs of items, one after the other, is
/// what it gathers from the first followed by what it gathers from the
/// second.
proof fn lemma_declared_distributes(a: Seq<SourceItemModel>, b: Seq<SourceItemModel>)
    ensures
        declared_functions(a + b) == declared_functions(a) + declared_functions(b),
        declared_structs(a + b) == declared_structs(a) + declared_structs(b),
        declared_traits(a + b) == declared_traits(a) + declared_traits(b),
        declared_enums(a + b) == declared_enums(a) + declared_enums(b),
        declared_impls(a + b) == declared_impls(a) + declared_impls(b),
{
    lemma_filter_map_distributes(a, b, |item: SourceItemModel| function_of(item));
    lemma_filter_map_distributes(a, b, |item: SourceItemModel| struct_of(item));
    lemma_filter_map_distributes(a, b, |item: SourceItemModel| trait_of(item));
    lemma_filter_map_distributes(a, b, |item: SourceItemModel| enum_of(item));
    lemma_filter_map_distributes(a, b, |item: SourceItemModel| impl_of(item));
}

/// An implementation block for a type that the file does not declare
/// contributes nothing to the types of the file: with the block or without
/// it, the snapshot of the file holds the same functions, product types,
/// interfaces and sum types, each with the same methods.
pub proof fn lemma_block_for_undeclared_type(
    path: Seq<char>,
    before: Seq<SourceItemModel>,
    block: ImplItemModel,
    after: Seq<SourceItemModel>,
)
    requires
        impl_model(block) matches Some(b) ==> {
            &&& !names_struct(declared_structs(before + after), b.for_type)
            &&& !names_enum(declared_enums(before + after), b.for_type)
        },
    ensures
        ({
            let with = file_snapshot(path, before.push(SourceItemModel::Impl(block)) + after);
            let without = file_snapshot(path, before + after);
            &&& with.functions == without.functions
            &&& with.structs == without.structs
            &&& with.traits == without.traits
            &&& with.enums == without.enums
        }),
{
    let item = SourceItemModel::Impl(block);
    let one = seq![item];
    assert(before.push(item) =~= before + one);
    lemma_declared_distributes(before + one, after);
    lemma_declared_distributes(before, one);
    lemma_declared_distributes(before, after);
    Seq::lemma_filter_map_singleton(item, |item: SourceItemModel| function_of(item));
    Seq::lemma_filter_map_singleton(item, |item: SourceItemModel| struct_of(item));
    Seq::lemma_filter_map_singleton(item, |item: SourceItemModel| trait_of(item));
    Seq::lemma_filter_map_singleton(item, |item: SourceItemModel| enum_of(item));
    Seq::lemma_filter_map_singleton(item, |item: SourceItemModel| impl_of(item));
    let all = before + one + after;
    let with = after_file(empty_visitor(), all);
    match impl_model(block) {
        Some(b) => {
            let early = Seq::<ImplModel>::empty() + declared_impls(before);
            let late = declared_impls(after);
            assert(with.impls =~= early.push(b) + late);
            lemma_foreign_block_contributes_nothing(with.structs, with.enums, early, b, late);
        },
        None => {},
    }
}

} // verus!
