//! The entity at the head of a declaration group: a trait, a struct with
//! named fields, an enum, or nothing for any other declaration.

pub mod extend;
pub mod structure;
pub mod enumerate;

use vstd::prelude::*;
use self::extend::{Trait, TraitView, trait_label};
use self::structure::{Struct, StructView, struct_label};
use self::enumerate::{Enum, EnumView, VariantSig, VariantSigView, enum_label};
use crate::decl::FieldView;

verus! {

/// The classified entity of a declaration group.
pub enum Abstract {
    Trait(Trait),
    Struct(Struct),
    Enum(Enum),
    Unrecognized,
}

/// The ghost form of an `Abstract`.
#[verifier::ext_equal]
pub ghost enum AbstractView {
    Trait(TraitView),
    Struct(StructView),
    Enum(EnumView),
    Unrecognized,
}

impl View for Abstract {
    type V = AbstractView;

    open spec fn view(&self) -> AbstractView {
        match self {
            Abstract::Trait(t) => AbstractView::Trait(t@),
            Abstract::Struct(s) => AbstractView::Struct(s@),
            Abstract::Enum(e) => AbstractView::Enum(e@),
            Abstract::Unrecognized => AbstractView::Unrecognized,
        }
    }
}

impl Clone for Abstract {
    fn clone(&self) -> (res: Self)
        ensures
            res@ == self@,
    {
        match self {
            Abstract::Trait(t) => Abstract::Trait(t.clone()),
            Abstract::Struct(s) => Abstract::Struct(s.clone()),
            Abstract::Enum(e) => Abstract::Enum(e.clone()),
            Abstract::Unrecognized => Abstract::Unrecognized,
        }
    }
}

impl Default for Abstract {
    /// An unclassified entity.
    fn default() -> (res: Self)
        ensures
            res@ == AbstractView::Unrecognized,
    {
        Abstract::Unrecognized
    }
}

/// The name of an entity, none for an unclassified one.
pub open spec fn abstract_name(a: AbstractView) -> Option<Seq<char>> {
    match a {
        AbstractView::Trait(t) => Some(t.name),
        AbstractView::Struct(s) => Some(s.name),
        AbstractView::Enum(e) => Some(e.name),
        AbstractView::Unrecognized => None,
    }
}

/// The payload type texts of a row of variants, concatenated in order.
pub open spec fn variants_attrs(vs: Seq<VariantSigView>) -> Seq<Seq<char>>
    decreases vs.len(),
{
    if vs.len() == 0 {
        Seq::empty()
    } else {
        variants_attrs(vs.drop_last()) + vs.last().types
    }
}

/// The attribute type texts of an entity: a struct's field types, an enum's
/// variant payload types in order, nothing for a trait or an unclassified
/// entity.  These are the texts that composition and aggregation search.
pub open spec fn attrs_of(a: AbstractView) -> Seq<Seq<char>> {
    match a {
        AbstractView::Struct(s) => s.fields.map_values(|f: FieldView| f.ty),
        AbstractView::Enum(e) => variants_attrs(e.variants),
        _ => Seq::empty(),
    }
}

impl Abstract {
    /// The name of the entity, or nothing for an unclassified one.
    pub fn as_name(&self) -> (r: Option<&String>)
        ensures
            r.deep_view() == abstract_name(self@),
    {
        match self {
            Abstract::Trait(t) => Some(&t.name),
            Abstract::Struct(s) => Some(&s.name),
            Abstract::Enum(e) => Some(&e.name),
            Abstract::Unrecognized => None,
        }
    }

    /// The attribute type texts of the entity, in order: the field types of a
    /// struct, the variant payload types of an enum, nothing otherwise.
    pub fn attributes(&self) -> (res: Vec<String>)
        ensures
            res.deep_view() == attrs_of(self@),
    {
        match self {
            Abstract::Struct(s) => {
                let mut res: Vec<String> = Vec::new();
                let mut i: usize = 0;
                while i < s.fields.len()
                    invariant
                        0 <= i <= s.fields@.len(),
                        res@.len() == i,
                        forall|k: int| 0 <= k < i ==> (#[trigger] res@[k])@ == s.fields@[k].ty@,
                    decreases s.fields@.len() - i,
                {
                    res.push(s.fields[i].ty.clone());
                    i += 1;
                }
                proof {
                    assert(res.deep_view() =~= attrs_of(self@));
                }
                res
            },
            Abstract::Enum(e) => {
                let ghost vsv = e.variants@.map_values(|v: VariantSig| v@);
                let mut res: Vec<String> = Vec::new();
                let mut i: usize = 0;
                while i < e.variants.len()
                    invariant
                        0 <= i <= e.variants@.len(),
                        vsv == e.variants@.map_values(
                            |v: VariantSig| v@,
                        ),
                        res.deep_view() =~= variants_attrs(vsv.take(i as int)),
                    decreases e.variants@.len() - i,
                {
                    let v = &e.variants[i];
                    let ghost base = variants_attrs(vsv.take(i as int));
                    let mut j: usize = 0;
                    while j < v.types.len()
                        invariant
                            0 <= j <= v.types@.len(),
                            v == &e.variants[i as int],
                            0 <= i < e.variants@.len(),
                            vsv == e.variants@.map_values(
                                |v: VariantSig| v@,
                            ),
                            res.deep_view() =~= base + v.types.deep_view().take(j as int),
                        decreases v.types@.len() - j,
                    {
                        let ghost pre = res.deep_view();
                        res.push(v.types[j].clone());
                        proof {
                            let t = v.types.deep_view();
                            assert(res.deep_view() =~= pre.push(t[j as int]));
                            assert(pre.push(t[j as int]) =~= base + t.take(j as int + 1));
                        }
                        j += 1;
                    }
                    proof {
                        assert(v.types.deep_view().take(v.types@.len() as int) =~= v
                            .types
                            .deep_view());
                        assert(vsv.take(i as int + 1).drop_last() =~= vsv.take(i as int));
                        assert(vsv.take(i as int + 1).last() == vsv[i as int]);
                        assert(vsv[i as int].types == v.types.deep_view());
                        assert(res.deep_view() =~= base + v.types.deep_view());
                        assert(res.deep_view() =~= variants_attrs(vsv.take(i as int + 1)));
                    }
                    i += 1;
                }
                proof {
                    assert(vsv.take(e.variants@.len() as int) =~= vsv);
                }
                res
            },
            _ => {
                let res: Vec<String> = Vec::new();
                proof {
                    assert(res.deep_view() =~= Seq::<Seq<char>>::empty());
                }
                res
            },
        }
    }
}


/// The record label of an entity: its kind's label, empty for an
/// unrecognized entity (which never reaches the output).
pub open spec fn abstract_label(a: AbstractView) -> Seq<char> {
    match a {
        AbstractView::Struct(s) => struct_label(s),
        AbstractView::Enum(e) => enum_label(e),
        AbstractView::Trait(t) => trait_label(t),
        AbstractView::Unrecognized => Seq::empty(),
    }
}

impl Abstract {
    /// The record label of this entity.
    pub fn label(&self) -> (r: String)
        requires
            !(self@ is Unrecognized),
        ensures
            r@ == abstract_label(self@),
    {
        match self {
            Abstract::Struct(s) => s.label(),
            Abstract::Enum(e) => e.label(),
            Abstract::Trait(t) => t.label(),
            Abstract::Unrecognized => {
                proof {
                    assert(false);
                }
                vstd::pervasive::unreached()
            },
        }
    }
}

} // verus!
