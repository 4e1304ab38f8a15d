//! The declarations of a parsed source file, as far as the library reads them.
//!
//! A parsed file is a list of [`SourceItem`]s in file order. Each item holds,
//! as plain values, what the extraction and the module resolution look at:
//! names, the shape of binding patterns, and whether a module has a body.
//! Every type has a mathematical model, reached with `@`.

use vstd::prelude::*;

verus! {

/// The pattern of a parameter or of a local binding.
#[derive(Debug, PartialEq, Eq)]
pub enum Pattern {
    /// A single identifier.
    Ident(String),
    /// A pattern with a declared type: the identifier of the pattern inside,
    /// where that is a single identifier, and the text of the type.
    Typed { ident: Option<String>, ty: String },
    /// Any other pattern, such as one that destructures.
    Other,
}

/// One parameter of a function.
#[derive(Debug, PartialEq, Eq)]
pub enum Parameter {
    /// The receiver, `self` in any form.
    Receiver,
    /// A parameter with a pattern and a type.
    Typed(Pattern),
}

/// One statement of a function's body.
#[derive(Debug, PartialEq, Eq)]
pub enum Statement {
    /// A `let` binding, with its pattern.
    Local(Pattern),
    /// Any other statement.
    Other,
}

/// The fields of a product type.
#[derive(Debug, PartialEq, Eq)]
pub enum FieldList {
    /// Fields in braces, in order, each with its name if it has one.
    Named(Vec<Option<String>>),
    /// The positional fields of a tuple-style type, or no fields at all.
    Unnamed,
}

/// One member of an interface or of an implementation block.
#[derive(Debug, PartialEq, Eq)]
pub enum Member {
    /// A method, by name.
    Method(String),
    /// A constant, a type, a macro call.
    Other,
}

/// A function declaration.
#[derive(Debug, PartialEq, Eq)]
pub struct FunctionItem {
    pub name: String,
    pub params: Vec<Parameter>,
    pub body: Vec<Statement>,
}

/// A product-type declaration.
#[derive(Debug, PartialEq, Eq)]
pub struct StructItem {
    pub name: String,
    pub fields: FieldList,
}

/// An interface declaration.
#[derive(Debug, PartialEq, Eq)]
pub struct TraitItem {
    pub name: String,
    pub members: Vec<Member>,
}

/// A sum-type declaration.
#[derive(Debug, PartialEq, Eq)]
pub struct EnumItem {
    pub name: String,
    pub variants: Vec<String>,
}

/// An implementation block.
#[derive(Debug, PartialEq, Eq)]
pub struct ImplItem {
    /// The target type, where it is written as a bare identifier: no path, no
    /// generic arguments.
    pub target: Option<String>,
    /// The segments of the path of the interface that the block satisfies.
    pub interface: Option<Vec<String>>,
    pub members: Vec<Member>,
}

/// A module declaration.
#[derive(Debug, PartialEq, Eq)]
pub struct ModuleItem {
    pub name: String,
    /// Whether the declaration carries its body in braces.
    pub inline: bool,
}

/// One top-level declaration of a file.
#[derive(Debug, PartialEq, Eq)]
pub enum SourceItem {
    Function(FunctionItem),
    Struct(StructItem),
    Trait(TraitItem),
    Enum(EnumItem),
    Impl(ImplItem),
    Module(ModuleItem),
    /// A declaration of any other kind.
    Other,
}

/// Model of a [`Pattern`].
pub enum PatternModel {
    Ident(Seq<char>),
    Typed { ident: Option<Seq<char>>, ty: Seq<char> },
    Other,
}

/// Model of a [`Parameter`].
pub enum ParameterModel {
    Receiver,
    Typed(PatternModel),
}

/// Model of a [`Statement`].
pub enum StatementModel {
    Local(PatternModel),
    Other,
}

/// Model of a [`FieldList`].
pub enum FieldsModel {
    Named(Seq<Option<Seq<char>>>),
    Unnamed,
}

/// Model of a [`Member`].
pub enum MemberModel {
    Method(Seq<char>),
    Other,
}

/// Model of a [`FunctionItem`].
pub struct FunctionItemModel {
    pub name: Seq<char>,
    pub params: Seq<ParameterModel>,
    pub body: Seq<StatementModel>,
}

/// Model of a [`StructItem`].
pub struct StructItemModel {
    pub name: Seq<char>,
    pub fields: FieldsModel,
}

/// Model of a [`TraitItem`].
pub struct TraitItemModel {
    pub name: Seq<char>,
    pub members: Seq<MemberModel>,
}

/// Model of an [`EnumItem`].
pub struct EnumItemModel {
    pub name: Seq<char>,
    pub variants: Seq<Seq<char>>,
}

/// Model of an [`ImplItem`].
pub struct ImplItemModel {
    pub target: Option<Seq<char>>,
    pub interface: Option<Seq<Seq<char>>>,
    pub members: Seq<MemberModel>,
}

/// Model of a [`ModuleItem`].
pub struct ModuleItemModel {
    pub name: Seq<char>,
    pub inline: bool,
}

/// Model of a [`SourceItem`].
pub enum SourceItemModel {
    Function(FunctionItemModel),
    Struct(StructItemModel),
    Trait(TraitItemModel),
    Enum(EnumItemModel),
    Impl(ImplItemModel),
    Module(ModuleItemModel),
    Other,
}

impl View for Pattern {
    type V = PatternModel;

    open spec fn view(&self) -> PatternModel {
        match self {
            Pattern::Ident(name) => PatternModel::Ident(name@),
            Pattern::Typed { ident, ty } => PatternModel::Typed {
                ident: ident.deep_view(),
                ty: ty@,
            },
            Pattern::Other => PatternModel::Other,
        }
    }
}

impl DeepView for Pattern {
    type V = PatternModel;

    open spec fn deep_view(&self) -> PatternModel {
        self@
    }
}

impl View for Parameter {
    type V = ParameterModel;

    open spec fn view(&self) -> ParameterModel {
        match self {
            Parameter::Receiver => ParameterModel::Receiver,
            Parameter::Typed(pattern) => ParameterModel::Typed(pattern@),
        }
    }
}

impl DeepView for Parameter {
    type V = ParameterModel;

    open spec fn deep_view(&self) -> ParameterModel {
        self@
    }
}

impl View for Statement {
    type V = StatementModel;

    open spec fn view(&self) -> StatementModel {
        match self {
            Statement::Local(pattern) => StatementModel::Local(pattern@),
            Statement::Other => StatementModel::Other,
        }
    }
}

impl DeepView for Statement {
    type V = StatementModel;

    open spec fn deep_view(&self) -> StatementModel {
        self@
    }
}

impl View for FieldList {
    type V = FieldsModel;

    open spec fn view(&self) -> FieldsModel {
        match self {
            FieldList::Named(names) => FieldsModel::Named(names.deep_view()),
            FieldList::Unnamed => FieldsModel::Unnamed,
        }
    }
}

impl DeepView for FieldList {
    type V = FieldsModel;

    open spec fn deep_view(&self) -> FieldsModel {
        self@
    }
}

impl View for Member {
    type V = MemberModel;

    open spec fn view(&self) -> MemberModel {
        match self {
            Member::Method(name) => MemberModel::Method(name@),
            Member::Other => MemberModel::Other,
        }
    }
}

impl DeepView for Member {
    type V = MemberModel;

    open spec fn deep_view(&self) -> MemberModel {
        self@
    }
}

impl View for FunctionItem {
    type V = FunctionItemModel;

    open spec fn view(&self) -> FunctionItemModel {
        FunctionItemModel {
            name: self.name@,
            params: self.params.deep_view(),
            body: self.body.deep_view(),
        }
    }
}

impl DeepView for FunctionItem {
    type V = FunctionItemModel;

    open spec fn deep_view(&self) -> FunctionItemModel {
        self@
    }
}

impl View for StructItem {
    type V = StructItemModel;

    open spec fn view(&self) -> StructItemModel {
        StructItemModel { name: self.name@, fields: self.fields@ }
    }
}

impl DeepView for StructItem {
    type V = StructItemModel;

    open spec fn deep_view(&self) -> StructItemModel {
        self@
    }
}

impl View for TraitItem {
    type V = TraitItemModel;

    open spec fn view(&self) -> TraitItemModel {
        TraitItemModel { name: self.name@, members: self.members.deep_view() }
    }
}

impl DeepView for TraitItem {
    type V = TraitItemModel;

    open spec fn deep_view(&self) -> TraitItemModel {
        self@
    }
}

impl View for EnumItem {
    type V = EnumItemModel;

    open spec fn view(&self) -> EnumItemModel {
        EnumItemModel { name: self.name@, variants: self.variants.deep_view() }
    }
}

impl DeepView for EnumItem {
    type V = EnumItemModel;

    open spec fn deep_view(&self) -> EnumItemModel {
        self@
    }
}

impl View for ImplItem {
    type V = ImplItemModel;

    open spec fn view(&self) -> ImplItemModel {
        ImplItemModel {
            target: self.target.deep_view(),
            interface: self.interface.deep_view(),
            members: self.members.deep_view(),
        }
    }
}

impl DeepView for ImplItem {
    type V = ImplItemModel;

    open spec fn deep_view(&self) -> ImplItemModel {
        self@
    }
}

impl View for ModuleItem {
    type V = ModuleItemModel;

    open spec fn view(&self) -> ModuleItemModel {
        ModuleItemModel { name: self.name@, inline: self.inline }
    }
}

impl DeepView for ModuleItem {
    type V = ModuleItemModel;

    open spec fn deep_view(&self) -> ModuleItemModel {
        self@
    }
}

impl View for SourceItem {
    type V = SourceItemModel;

    open spec fn view(&self) -> SourceItemModel {
        match self {
            SourceItem::Function(f) => SourceItemModel::Function(f@),
            SourceItem::Struct(s) => SourceItemModel::Struct(s@),
            SourceItem::Trait(t) => SourceItemModel::Trait(t@),
            SourceItem::Enum(e) => SourceItemModel::Enum(e@),
            SourceItem::Impl(b) => SourceItemModel::Impl(b@),
            SourceItem::Module(m) => SourceItemModel::Module(m@),
            SourceItem::Other => SourceItemModel::Other,
        }
    }
}

impl DeepView for SourceItem {
    type V = SourceItemModel;

    open spec fn deep_view(&self) -> SourceItemModel {
        self@
    }
}

} // verus!
