//! Structural snapshots of source files and of the declarations in them.
//!
//! Every type has a mathematical model, reached with `@`, in which strings are
//! sequences of characters and vectors are sequences. The contracts of the
//! library speak of these models.

use vstd::prelude::*;

verus! {

/// A function declaration: its name, the parameters bound by a single
/// identifier, and the local bindings of its body, each with the text of its
/// declared type where it has one.
#[derive(Debug, PartialEq, Eq)]
pub struct FunctionSnapshot {
    pub name: String,
    pub args: Vec<String>,
    pub variables: Vec<(String, Option<String>)>,
}

/// A product type: its name, its named fields, and the methods that the
/// implementation blocks of the same file attach to it.
#[derive(Debug, PartialEq, Eq)]
pub struct StructSnapshot {
    pub name: String,
    pub fields: Vec<String>,
    pub methods: Vec<String>,
}

/// An interface: its name and the names of its methods.
#[derive(Debug, PartialEq, Eq)]
pub struct TraitSnapshot {
    pub name: String,
    pub methods: Vec<String>,
}

/// A sum type: its name, its variants, and the methods that the
/// implementation blocks of the same file attach to it.
#[derive(Debug, PartialEq, Eq)]
pub struct EnumSnapshot {
    pub name: String,
    pub variants: Vec<String>,
    pub methods: Vec<String>,
}

/// An implementation block: the bare name of its target type, the interface it
/// satisfies if any, and the names of its methods.
#[derive(Debug, PartialEq, Eq)]
pub struct ImplSnapshot {
    pub for_type: String,
    pub trait_name: Option<String>,
    pub methods: Vec<String>,
}

/// The structural summary of one file's top-level declarations.
#[derive(Debug, PartialEq, Eq)]
pub struct RustFileSnapshot {
    pub path: String,
    pub functions: Vec<FunctionSnapshot>,
    pub structs: Vec<StructSnapshot>,
    pub traits: Vec<TraitSnapshot>,
    pub enums: Vec<EnumSnapshot>,
    pub impls: Vec<ImplSnapshot>,
}

/// Model of a [`FunctionSnapshot`].
pub struct FunctionModel {
    pub name: Seq<char>,
    pub args: Seq<Seq<char>>,
    pub variables: Seq<(Seq<char>, Option<Seq<char>>)>,
}

/// Model of a [`StructSnapshot`].
pub struct StructModel {
    pub name: Seq<char>,
    pub fields: Seq<Seq<char>>,
    pub methods: Seq<Seq<char>>,
}

/// Model of a [`TraitSnapshot`].
pub struct TraitModel {
    pub name: Seq<char>,
    pub methods: Seq<Seq<char>>,
}

/// Model of an [`EnumSnapshot`].
pub struct EnumModel {
    pub name: Seq<char>,
    pub variants: Seq<Seq<char>>,
    pub methods: Seq<Seq<char>>,
}

/// Model of an [`ImplSnapshot`].
pub struct ImplModel {
    pub for_type: Seq<char>,
    pub trait_name: Option<Seq<char>>,
    pub methods: Seq<Seq<char>>,
}

/// Model of a [`RustFileSnapshot`].
pub struct SnapshotModel {
    pub path: Seq<char>,
    pub functions: Seq<FunctionModel>,
    pub structs: Seq<StructModel>,
    pub traits: Seq<TraitModel>,
    pub enums: Seq<EnumModel>,
    pub impls: Seq<ImplModel>,
}

impl View for FunctionSnapshot {
    type V = FunctionModel;

    open spec fn view(&self) -> FunctionModel {
        FunctionModel {
            name: self.name@,
            args: self.args.deep_view(),
            variables: self.variables.deep_view(),
        }
    }
}

impl DeepView for FunctionSnapshot {
    type V = FunctionModel;

    open spec fn deep_view(&self) -> FunctionModel {
        self@
    }
}

impl View for StructSnapshot {
    type V = StructModel;

    open spec fn view(&self) -> StructModel {
        StructModel {
            name: self.name@,
            fields: self.fields.deep_view(),
            methods: self.methods.deep_view(),
        }
    }
}

impl DeepView for StructSnapshot {
    type V = StructModel;

    open spec fn deep_view(&self) -> StructModel {
        self@
    }
}

impl View for TraitSnapshot {
    type V = TraitModel;

    open spec fn view(&self) -> TraitModel {
        TraitModel { name: self.name@, methods: self.methods.deep_view() }
    }
}

impl DeepView for TraitSnapshot {
    type V = TraitModel;

    open spec fn deep_view(&self) -> TraitModel {
        self@
    }
}

impl View for EnumSnapshot {
    type V = EnumModel;

    open spec fn view(&self) -> EnumModel {
        EnumModel {
            name: self.name@,
            variants: self.variants.deep_view(),
            methods: self.methods.deep_view(),
        }
    }
}

impl DeepView for EnumSnapshot {
    type V = EnumModel;

    open spec fn deep_view(&self) -> EnumModel {
        self@
    }
}

impl View for ImplSnapshot {
    type V = ImplModel;

    open spec fn view(&self) -> ImplModel {
        ImplModel {
            for_type: self.for_type@,
            trait_name: self.trait_name.deep_view(),
            methods: self.methods.deep_view(),
        }
    }
}

impl DeepView for ImplSnapshot {
    type V = ImplModel;

    open spec fn deep_view(&self) -> ImplModel {
        self@
    }
}

impl View for RustFileSnapshot {
    type V = SnapshotModel;

    open spec fn view(&self) -> SnapshotModel {
        SnapshotModel {
            path: self.path@,
            functions: self.functions.deep_view(),
            structs: self.structs.deep_view(),
            traits: self.traits.deep_view(),
            enums: self.enums.deep_view(),
            impls: self.impls.deep_view(),
        }
    }
}

impl DeepView for RustFileSnapshot {
    type V = SnapshotModel;

    open spec fn deep_view(&self) -> SnapshotModel {
        self@
    }
}

/// Copies an optional string.
pub fn clone_optional(s: &Option<String>) -> (r: Option<String>)
    ensures
        r.deep_view() == s.deep_view(),
{
    match s {
        Some(t) => Some(t.clone()),
        None => None,
    }
}

impl Clone for FunctionSnapshot {
    fn clone(&self) -> (r: Self)
        ensures
            r@ == self@,
    {
        let mut variables: Vec<(String, Option<String>)> = Vec::new();
        let mut i: usize = 0;
        while i < self.variables.len()
            invariant
                i <= self.variables.len(),
                variables.len() == i,
                forall|j: int|
                    0 <= j < i ==> variables[j].deep_view() == self.variables[j].deep_view(),
            decreases self.variables.len() - i,
        {
            let ty = clone_optional(&self.variables[i].1);
            variables.push((self.variables[i].0.clone(), ty));
            i += 1;
        }
        let r = FunctionSnapshot { name: self.name.clone(), args: self.args.clone(), variables };
        assert(r.variables.deep_view() =~= self.variables.deep_view());
        r
    }
}

impl Clone for StructSnapshot {
    fn clone(&self) -> (r: Self)
        ensures
            r@ == self@,
    {
        let r = StructSnapshot {
            name: self.name.clone(),
            fields: self.fields.clone(),
            methods: self.methods.clone(),
        };
        r
    }
}

impl Clone for TraitSnapshot {
    fn clone(&self) -> (r: Self)
        ensures
            r@ == self@,
    {
        let r = TraitSnapshot { name: self.name.clone(), methods: self.methods.clone() };
        r
    }
}

impl Clone for EnumSnapshot {
    fn clone(&self) -> (r: Self)
        ensures
            r@ == self@,
    {
        let r = EnumSnapshot {
            name: self.name.clone(),
            variants: self.variants.clone(),
            methods: self.methods.clone(),
        };
        r
    }
}

impl Clone for ImplSnapshot {
    fn clone(&self) -> (r: Self)
        ensures
            r@ == self@,
    {
        let r = ImplSnapshot {
            for_type: self.for_type.clone(),
            trait_name: clone_optional(&self.trait_name),
            methods: self.methods.clone(),
        };
        r
    }
}

impl Clone for RustFileSnapshot {
    fn clone(&self) -> (r: Self)
        ensures
            r@ == self@,
    {
        let r = RustFileSnapshot {
            path: self.path.clone(),
            functions: self.functions.clone(),
            structs: self.structs.clone(),
            traits: self.traits.clone(),
            enums: self.enums.clone(),
            impls: self.impls.clone(),
        };
        r
    }
}

} // verus!
