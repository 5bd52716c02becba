//! The method collection of a trait implementation block.

use vstd::prelude::*;
use crate::decl::{ImplMethodSig, ImplMethodSigView, PathSeg, PathSegView};
use crate::text::{has_token, contains_token, str_eq};

verus! {

/// One method's signature in a trait implementation: name, rendered parameter
/// type texts, and the rendered return type where one is present.
pub struct ImplFunc {
    pub name: String,
    pub types: Vec<String>,
    pub output: Option<String>,
}

/// The ghost form of an `ImplFunc`.
#[verifier::ext_equal]
pub ghost struct ImplFuncView {
    pub name: Seq<char>,
    pub types: Seq<Seq<char>>,
    pub output: Option<Seq<char>>,
}

impl View for ImplFunc {
    type V = ImplFuncView;

    open spec fn view(&self) -> ImplFuncView {
        ImplFuncView {
            name: self.name@,
            types: self.types.deep_view(),
            output: self.output.deep_view(),
        }
    }
}

impl Clone for ImplFunc {
    fn clone(&self) -> (res: Self)
        ensures
            res@ == self@,
    {
        let types = self.types.clone();
        let output = match &self.output {
            Some(ret) => Some(ret.clone()),
            None => None,
        };
        proof {
            assert(types.deep_view() =~= self.types.deep_view());
        }
        let res = ImplFunc { name: self.name.clone(), types, output };
        proof {
            assert(res@ =~~= self@);
        }
        res
    }
}

/// The record of one trait implementation block: the implemented trait's path
/// segments with their generic-argument texts, and the block's methods.
pub struct Implem {
    pub ty: Vec<PathSeg>,
    pub method: Vec<ImplFunc>,
}

/// The ghost form of an `Implem`.
#[verifier::ext_equal]
pub ghost struct ImplemView {
    pub ty: Seq<PathSegView>,
    pub method: Seq<ImplFuncView>,
}

impl View for Implem {
    type V = ImplemView;

    open spec fn view(&self) -> ImplemView {
        ImplemView {
            ty: self.ty@.map_values(|s: PathSeg| s@),
            method: self.method@.map_values(|f: ImplFunc| f@),
        }
    }
}

impl Clone for Implem {
    fn clone(&self) -> (res: Self)
        ensures
            res@ == self@,
    {
        let ty = self.ty.clone();
        let method = self.method.clone();
        proof {
            assert(ty@.map_values(|s: PathSeg| s@) =~= self.ty@.map_values(|s: PathSeg| s@)) by {
                assert(forall|i: int|
                    0 <= i < self.ty@.len() ==> (#[trigger] ty@[i])@ == self.ty@[i]@);
            }
            assert(method@.map_values(|f: ImplFunc| f@) =~= self.method@.map_values(
                |f: ImplFunc| f@,
            )) by {
                assert(forall|i: int|
                    0 <= i < self.method@.len() ==> (#[trigger] method@[i])@ == self.method@[i]@);
            }
        }
        let res = Implem { ty, method };
        proof {
            assert(res@ =~~= self@);
        }
        res
    }
}

/// One trait-impl method's signature as kept for the record: the argument
/// rendering is dropped, the type text rendering is kept.
pub open spec fn impl_func_of(m: ImplMethodSigView) -> ImplFuncView {
    ImplFuncView { name: m.name, types: m.types, output: m.output }
}

/// The record built from one trait implementation block.
pub open spec fn implem_of(segments: Seq<PathSegView>, ms: Seq<ImplMethodSigView>) -> ImplemView {
    ImplemView { ty: segments, method: ms.map_values(|m: ImplMethodSigView| impl_func_of(m)) }
}

/// Whether the implemented trait's name — the first path segment — equals
/// `name`: the implementing entity realizes the interface `name`.
pub open spec fn implem_is_realization(v: ImplemView, name: Seq<char>) -> bool {
    v.ty.len() > 0 && v.ty[0].name == name
}

/// Whether some method of the record has an explicit return type whose token
/// split (on the return delimiter set, blank included) yields `name`.
pub open spec fn implem_is_association(v: ImplemView, name: Seq<char>) -> bool {
    exists|i: int|
        0 <= i < v.method.len() && (#[trigger] v.method[i]).output is Some && has_token(
            v.method[i].output.unwrap(),
            name,
            true,
        )
}

impl Implem {
    /// Builds the record of one trait implementation block.
    pub fn build(segments: &Vec<PathSeg>, methods: &Vec<ImplMethodSig>) -> (v: Implem)
        ensures
            v@ == implem_of(
                segments@.map_values(|s: PathSeg| s@),
                methods.deep_view(),
            ),
    {
        let ghost msv = methods.deep_view();
        let ty = segments.clone();
        proof {
            assert(ty@.map_values(|s: PathSeg| s@) =~= segments@.map_values(|s: PathSeg| s@)) by {
                assert(forall|i: int|
                    0 <= i < segments@.len() ==> (#[trigger] ty@[i])@ == segments@[i]@);
            }
        }
        let mut method: Vec<ImplFunc> = Vec::new();
        let mut i: usize = 0;
        while i < methods.len()
            invariant
                0 <= i <= methods@.len(),
                msv == methods.deep_view(),
                method@.len() == i,
                forall|k: int| 0 <= k < i ==> (#[trigger] method@[k])@ == impl_func_of(msv[k]),
            decreases methods@.len() - i,
        {
            let ms = &methods[i];
            let types = ms.types.clone();
            let output = match &ms.output {
                Some(ret) => Some(ret.clone()),
                None => None,
            };
            proof {
                assert(types.deep_view() =~= ms.types.deep_view());
            }
            let f = ImplFunc { name: ms.name.clone(), types, output };
            proof {
                assert(f@ =~~= impl_func_of(msv[i as int]));
            }
            method.push(f);
            i += 1;
        }
        let v = Implem { ty, method };
        proof {
            assert(v@.method =~= implem_of(segments@.map_values(|s: PathSeg| s@), msv).method);
            assert(v@ =~~= implem_of(segments@.map_values(|s: PathSeg| s@), msv));
        }
        v
    }

    /// Whether this record implements the trait named `ty_name`.
    pub fn is_realization(&self, ty_name: &String) -> (r: bool)
        ensures
            r == implem_is_realization(self@, ty_name@),
    {
        if self.ty.len() > 0 {
            let r = str_eq(self.ty[0].name.as_str(), ty_name.as_str());
            assert(self@.ty[0] == self.ty@[0]@);
            r
        } else {
            false
        }
    }

    /// Whether some method of this record returns a token equal to `ty_name`.
    pub fn is_association(&self, ty_name: &String) -> (r: bool)
        ensures
            r == implem_is_association(self@, ty_name@),
    {
        let mut i: usize = 0;
        while i < self.method.len()
            invariant
                0 <= i <= self.method@.len(),
                forall|i2: int|
                    0 <= i2 < i ==> !((#[trigger] self@.method[i2]).output is Some && has_token(
                        self@.method[i2].output.unwrap(),
                        ty_name@,
                        true,
                    )),
            decreases self.method@.len() - i,
        {
            match &self.method[i].output {
                Some(ret) => {
                    if contains_token(ret.as_str(), ty_name.as_str(), true) {
                        assert(self@.method[i as int].output is Some);
                        return true;
                    }
                },
                None => {},
            }
            assert(self@.method[i as int] == self.method@[i as int]@);
            i += 1;
        }
        false
    }

    /// Trait-impl method parameters take no part in dependency inference: this
    /// always answers no, whatever the name.
    pub fn is_dependency(&self, _ty_name: &String) -> (r: bool)
        ensures
            !r,
    {
        false
    }
}

} // verus!
