//! The declaration stream handed in by the upstream parser.
//!
//! The parser is an external collaborator: it turns source text into, per
//! top-level declaration, an item-kind discriminant, an identifier, a
//! visibility flag, and the rendered text of every field, variant payload,
//! parameter and return type.  This module holds that plain-value form.  All
//! later comparison is lexical, on the rendered type text, never on parsed
//! type structure.

use vstd::prelude::*;

verus! {

/// A named field: visibility, name, and rendered type text.
pub struct Field {
    pub vis: bool,
    pub name: String,
    pub ty: String,
}

/// The ghost form of a `Field`.
#[verifier::ext_equal]
pub ghost struct FieldView {
    pub vis: bool,
    pub name: Seq<char>,
    pub ty: Seq<char>,
}

impl View for Field {
    type V = FieldView;

    open spec fn view(&self) -> FieldView {
        FieldView { vis: self.vis, name: self.name@, ty: self.ty@ }
    }
}

impl DeepView for Field {
    type V = FieldView;

    open spec fn deep_view(&self) -> FieldView {
        self.view()
    }
}

impl Clone for Field {
    fn clone(&self) -> (res: Self)
        ensures
            res == *self,
    {
        Field { vis: self.vis, name: self.name.clone(), ty: self.ty.clone() }
    }
}

/// The shape of a struct body or of an enum variant's payload: named fields,
/// a tuple of rendered type texts, or nothing.
pub enum VariantData {
    Named(Vec<Field>),
    Tuple(Vec<String>),
    Unit,
}

/// The ghost form of a `VariantData`.
#[verifier::ext_equal]
pub ghost enum VariantDataView {
    Named(Seq<FieldView>),
    Tuple(Seq<Seq<char>>),
    Unit,
}

impl View for VariantData {
    type V = VariantDataView;

    open spec fn view(&self) -> VariantDataView {
        match self {
            VariantData::Named(fields) => VariantDataView::Named(
                fields@.map_values(|f: Field| f@),
            ),
            VariantData::Tuple(types) => VariantDataView::Tuple(types.deep_view()),
            VariantData::Unit => VariantDataView::Unit,
        }
    }
}

impl DeepView for VariantData {
    type V = VariantDataView;

    open spec fn deep_view(&self) -> VariantDataView {
        self.view()
    }
}

/// One enum variant: its name and the shape of its payload.
pub struct Variant {
    pub name: String,
    pub data: VariantData,
}

/// The ghost form of a `Variant`.
#[verifier::ext_equal]
pub ghost struct VariantView {
    pub name: Seq<char>,
    pub data: VariantDataView,
}

impl View for Variant {
    type V = VariantView;

    open spec fn view(&self) -> VariantView {
        VariantView { name: self.name@, data: self.data@ }
    }
}

impl DeepView for Variant {
    type V = VariantView;

    open spec fn deep_view(&self) -> VariantView {
        self.view()
    }
}

/// A trait method declaration: name, rendered parameter type texts, and the
/// rendered return type where the declaration has an explicit one.
pub struct TraitMethodSig {
    pub name: String,
    pub inputs: Vec<String>,
    pub output: Option<String>,
}

/// The ghost form of a `TraitMethodSig`.
#[verifier::ext_equal]
pub ghost struct TraitMethodSigView {
    pub name: Seq<char>,
    pub inputs: Seq<Seq<char>>,
    pub output: Option<Seq<char>>,
}

impl View for TraitMethodSig {
    type V = TraitMethodSigView;

    open spec fn view(&self) -> TraitMethodSigView {
        TraitMethodSigView {
            name: self.name@,
            inputs: self.inputs.deep_view(),
            output: self.output.deep_view(),
        }
    }
}

impl DeepView for TraitMethodSig {
    type V = TraitMethodSigView;

    open spec fn deep_view(&self) -> TraitMethodSigView {
        self.view()
    }
}

/// A method of an implementation block: visibility, name, each parameter both
/// as rendered argument text (`b: &B`) and as rendered type text (`&B`), and
/// the rendered return type where the method declares one.
pub struct ImplMethodSig {
    pub vis: bool,
    pub name: String,
    pub args: Vec<String>,
    pub types: Vec<String>,
    pub output: Option<String>,
}

/// The ghost form of an `ImplMethodSig`.
#[verifier::ext_equal]
pub ghost struct ImplMethodSigView {
    pub vis: bool,
    pub name: Seq<char>,
    pub args: Seq<Seq<char>>,
    pub types: Seq<Seq<char>>,
    pub output: Option<Seq<char>>,
}

impl View for ImplMethodSig {
    type V = ImplMethodSigView;

    open spec fn view(&self) -> ImplMethodSigView {
        ImplMethodSigView {
            vis: self.vis,
            name: self.name@,
            args: self.args.deep_view(),
            types: self.types.deep_view(),
            output: self.output.deep_view(),
        }
    }
}

impl DeepView for ImplMethodSig {
    type V = ImplMethodSigView;

    open spec fn deep_view(&self) -> ImplMethodSigView {
        self.view()
    }
}

/// One segment of an implemented trait's path: the segment name and its
/// angle-bracketed generic-argument texts.
pub struct PathSeg {
    pub name: String,
    pub types: Vec<String>,
}

/// The ghost form of a `PathSeg`.
#[verifier::ext_equal]
pub ghost struct PathSegView {
    pub name: Seq<char>,
    pub types: Seq<Seq<char>>,
}

impl View for PathSeg {
    type V = PathSegView;

    open spec fn view(&self) -> PathSegView {
        PathSegView { name: self.name@, types: self.types.deep_view() }
    }
}

impl DeepView for PathSeg {
    type V = PathSegView;

    open spec fn deep_view(&self) -> PathSegView {
        self.view()
    }
}

impl Clone for PathSeg {
    fn clone(&self) -> (res: Self)
        ensures
            res@ == self@,
    {
        let types = self.types.clone();
        proof {
            assert(types.deep_view() =~= self.types.deep_view());
        }
        let res = PathSeg { name: self.name.clone(), types };
        proof {
            assert(res@ =~~= self@);
        }
        res
    }
}

/// The kind of a declaration, with the data each kind carries.
pub enum DeclKind {
    /// A struct with the shape of its body.
    Struct(VariantData),
    /// An enum: type-parameter names and variants.
    Enum(Vec<String>, Vec<Variant>),
    /// A trait: type-parameter names and method declarations.
    Trait(Vec<String>, Vec<TraitMethodSig>),
    /// An implementation block: the implemented trait's path segments where
    /// the block implements a trait, and the block's methods.
    Impl(Option<Vec<PathSeg>>, Vec<ImplMethodSig>),
    /// Any other declaration: functions, constants, modules, imports.
    Other,
}

/// The ghost form of a `DeclKind`.
#[verifier::ext_equal]
pub ghost enum DeclKindView {
    Struct(VariantDataView),
    Enum(Seq<Seq<char>>, Seq<VariantView>),
    Trait(Seq<Seq<char>>, Seq<TraitMethodSigView>),
    Impl(Option<Seq<PathSegView>>, Seq<ImplMethodSigView>),
    Other,
}

impl View for DeclKind {
    type V = DeclKindView;

    open spec fn view(&self) -> DeclKindView {
        match self {
            DeclKind::Struct(data) => DeclKindView::Struct(data@),
            DeclKind::Enum(params, variants) => DeclKindView::Enum(
                params.deep_view(),
                variants@.map_values(|v: Variant| v@),
            ),
            DeclKind::Trait(params, methods) => DeclKindView::Trait(
                params.deep_view(),
                methods@.map_values(|m: TraitMethodSig| m@),
            ),
            DeclKind::Impl(of_trait, methods) => DeclKindView::Impl(
                match of_trait {
                    Some(segments) => Some(segments@.map_values(|s: PathSeg| s@)),
                    None => None,
                },
                methods@.map_values(|m: ImplMethodSig| m@),
            ),
            DeclKind::Other => DeclKindView::Other,
        }
    }
}

impl DeepView for DeclKind {
    type V = DeclKindView;

    open spec fn deep_view(&self) -> DeclKindView {
        self.view()
    }
}

/// One top-level declaration as the parser renders it.
pub struct Declaration {
    pub vis: bool,
    pub name: String,
    pub node: DeclKind,
}

/// The ghost form of a `Declaration`.
#[verifier::ext_equal]
pub ghost struct DeclarationView {
    pub vis: bool,
    pub name: Seq<char>,
    pub node: DeclKindView,
}

impl View for Declaration {
    type V = DeclarationView;

    open spec fn view(&self) -> DeclarationView {
        DeclarationView { vis: self.vis, name: self.name@, node: self.node@ }
    }
}

impl DeepView for Declaration {
    type V = DeclarationView;

    open spec fn deep_view(&self) -> DeclarationView {
        self.view()
    }
}

impl DeclKind {
    /// Whether this declaration is an implementation block, inherent or trait.
    pub open spec fn is_impl_block(&self) -> bool {
        self matches DeclKind::Impl(_, _)
    }

    /// Decides `is_impl_block`.
    pub fn is_impl(&self) -> (r: bool)
        ensures
            r == self.is_impl_block(),
    {
        match self {
            DeclKind::Impl(_, _) => true,
            _ => false,
        }
    }
}

} // verus!
