//! Value equality on the library's data, decided against the ghost views.
//!
//! Group states are compared by value when edges are enumerated and
//! deduplicated.  Each comparison here answers exactly whether the two
//! values' ghost forms are equal.

use vstd::prelude::*;
use crate::decl::{Field, PathSeg};
use crate::module::path::ModulePath;
use crate::text::str_eq;
use crate::uml::item::state::ItemState;
use crate::uml::item::state::abstraction::Abstract;
use crate::uml::item::state::abstraction::structure::Struct;
use crate::uml::item::state::abstraction::enumerate::{Enum, VariantSig};
use crate::uml::item::state::abstraction::extend::{Trait, TraitItemSig};
use crate::uml::item::state::method::{Method, FuncSig};
use crate::uml::item::state::implem::{Implem, ImplFunc};

verus! {

/// A value that can decide equality of its ghost form.
pub trait ViewEq: View {
    /// Whether the two values have the same ghost form.
    fn same_as(&self, other: &Self) -> (r: bool)
        ensures
            r == (self@ == other@),
    ;
}

/// Whether two vectors hold elementwise view-equal values.
pub fn vec_same<T: ViewEq>(a: &Vec<T>, b: &Vec<T>) -> (r: bool)
    ensures
        r == (a@.map_values(|x: T| x@) == b@.map_values(|x: T| x@)),
{
    if a.len() != b.len() {
        return false;
    }
    let mut i: usize = 0;
    while i < a.len()
        invariant
            a@.len() == b@.len(),
            0 <= i <= a@.len(),
            forall|k: int| 0 <= k < i ==> (#[trigger] a@[k])@ == b@[k]@,
        decreases a@.len() - i,
    {
        if !a[i].same_as(&b[i]) {
            proof {
                assert(a@.map_values(|x: T| x@)[i as int] != b@.map_values(|x: T| x@)[i as int]);
            }
            return false;
        }
        i += 1;
    }
    proof {
        assert(a@.map_values(|x: T| x@) =~= b@.map_values(|x: T| x@));
    }
    true
}

/// Whether two optional strings hold the same text, or are both absent.
pub fn opt_string_same(a: &Option<String>, b: &Option<String>) -> (r: bool)
    ensures
        r == (a.deep_view() == b.deep_view()),
{
    match (a, b) {
        (Some(x), Some(y)) => str_eq(x.as_str(), y.as_str()),
        (None, None) => true,
        _ => false,
    }
}

impl ViewEq for String {
    fn same_as(&self, other: &Self) -> (r: bool)
        ensures
            r == (self@ == other@),
    {
        str_eq(self.as_str(), other.as_str())
    }
}

impl ViewEq for ModulePath {
    fn same_as(&self, other: &Self) -> (r: bool)
        ensures
            r == (self@ == other@),
    {
        let r = vec_same(&self.path, &other.path);
        proof {
            assert(self.path.deep_view() =~= self.path@.map_values(|x: String| x@));
            assert(other.path.deep_view() =~= other.path@.map_values(|x: String| x@));
        }
        r
    }
}

impl ViewEq for Field {
    fn same_as(&self, other: &Self) -> (r: bool)
        ensures
            r == (self@ == other@),
    {
        self.vis == other.vis && str_eq(self.name.as_str(), other.name.as_str()) && str_eq(
            self.ty.as_str(),
            other.ty.as_str(),
        )
    }
}

impl ViewEq for PathSeg {
    fn same_as(&self, other: &Self) -> (r: bool)
        ensures
            r == (self@ == other@),
    {
        let r = str_eq(self.name.as_str(), other.name.as_str()) && vec_same(
            &self.types,
            &other.types,
        );
        proof {
            assert(self.types.deep_view() =~= self.types@.map_values(|x: String| x@));
            assert(other.types.deep_view() =~= other.types@.map_values(|x: String| x@));
        }
        r
    }
}

impl ViewEq for VariantSig {
    fn same_as(&self, other: &Self) -> (r: bool)
        ensures
            r == (self@ == other@),
    {
        let r = str_eq(self.name.as_str(), other.name.as_str()) && vec_same(
            &self.types,
            &other.types,
        );
        proof {
            assert(self.types.deep_view() =~= self.types@.map_values(|x: String| x@));
            assert(other.types.deep_view() =~= other.types@.map_values(|x: String| x@));
        }
        r
    }
}

impl ViewEq for TraitItemSig {
    fn same_as(&self, other: &Self) -> (r: bool)
        ensures
            r == (self@ == other@),
    {
        let r = str_eq(self.name.as_str(), other.name.as_str()) && vec_same(
            &self.inputs,
            &other.inputs,
        ) && str_eq(self.ret.as_str(), other.ret.as_str());
        proof {
            assert(self.inputs.deep_view() =~= self.inputs@.map_values(|x: String| x@));
            assert(other.inputs.deep_view() =~= other.inputs@.map_values(|x: String| x@));
        }
        r
    }
}

impl ViewEq for FuncSig {
    fn same_as(&self, other: &Self) -> (r: bool)
        ensures
            r == (self@ == other@),
    {
        let r = self.vis == other.vis && str_eq(self.name.as_str(), other.name.as_str())
            && vec_same(&self.args, &other.args) && opt_string_same(&self.output, &other.output);
        proof {
            assert(self.args.deep_view() =~= self.args@.map_values(|x: String| x@));
            assert(other.args.deep_view() =~= other.args@.map_values(|x: String| x@));
        }
        r
    }
}

impl ViewEq for ImplFunc {
    fn same_as(&self, other: &Self) -> (r: bool)
        ensures
            r == (self@ == other@),
    {
        let r = str_eq(self.name.as_str(), other.name.as_str()) && vec_same(
            &self.types,
            &other.types,
        ) && opt_string_same(&self.output, &other.output);
        proof {
            assert(self.types.deep_view() =~= self.types@.map_values(|x: String| x@));
            assert(other.types.deep_view() =~= other.types@.map_values(|x: String| x@));
        }
        r
    }
}

impl ViewEq for Method {
    fn same_as(&self, other: &Self) -> (r: bool)
        ensures
            r == (self@ == other@),
    {
        vec_same(&self.func, &other.func) && self.path.same_as(&other.path)
    }
}

impl ViewEq for Implem {
    fn same_as(&self, other: &Self) -> (r: bool)
        ensures
            r == (self@ == other@),
    {
        vec_same(&self.ty, &other.ty) && vec_same(&self.method, &other.method)
    }
}

impl ViewEq for Struct {
    fn same_as(&self, other: &Self) -> (r: bool)
        ensures
            r == (self@ == other@),
    {
        self.path.same_as(&other.path) && self.vis == other.vis && str_eq(
            self.name.as_str(),
            other.name.as_str(),
        ) && vec_same(&self.fields, &other.fields)
    }
}

impl ViewEq for Enum {
    fn same_as(&self, other: &Self) -> (r: bool)
        ensures
            r == (self@ == other@),
    {
        let r = self.vis == other.vis && str_eq(self.name.as_str(), other.name.as_str())
            && vec_same(&self.params, &other.params) && vec_same(&self.variants, &other.variants);
        proof {
            assert(self.params.deep_view() =~= self.params@.map_values(|x: String| x@));
            assert(other.params.deep_view() =~= other.params@.map_values(|x: String| x@));
        }
        r
    }
}

impl ViewEq for Trait {
    fn same_as(&self, other: &Self) -> (r: bool)
        ensures
            r == (self@ == other@),
    {
        let r = self.vis == other.vis && str_eq(self.name.as_str(), other.name.as_str())
            && vec_same(&self.params, &other.params) && vec_same(&self.items, &other.items);
        proof {
            assert(self.params.deep_view() =~= self.params@.map_values(|x: String| x@));
            assert(other.params.deep_view() =~= other.params@.map_values(|x: String| x@));
        }
        r
    }
}

impl ViewEq for Abstract {
    fn same_as(&self, other: &Self) -> (r: bool)
        ensures
            r == (self@ == other@),
    {
        match (self, other) {
            (Abstract::Trait(a), Abstract::Trait(b)) => a.same_as(b),
            (Abstract::Struct(a), Abstract::Struct(b)) => a.same_as(b),
            (Abstract::Enum(a), Abstract::Enum(b)) => a.same_as(b),
            (Abstract::Unrecognized, Abstract::Unrecognized) => true,
            _ => false,
        }
    }
}

impl ViewEq for ItemState {
    fn same_as(&self, other: &Self) -> (r: bool)
        ensures
            r == (self@ == other@),
    {
        self.node.same_as(&other.node) && vec_same(&self.method, &other.method) && vec_same(
            &self.implem,
            &other.implem,
        )
    }
}

} // verus!
