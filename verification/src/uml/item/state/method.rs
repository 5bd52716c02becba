//! The method collection of an inherent implementation block.

use vstd::prelude::*;
use crate::decl::{ImplMethodSig, ImplMethodSigView};
use crate::module::path::ModulePath;
use crate::text::{has_token, ends_with, contains_token, str_ends_with, html_escaped, joined, escape_html, join_strings};

verus! {

/// One method's signature in an inherent implementation: visibility, name,
/// rendered argument texts (`b: &B`), and the rendered return type where the
/// method declares one.  Unlike the trait rule, a missing return type is kept
/// as an explicit absent state.
pub struct FuncSig {
    pub vis: bool,
    pub name: String,
    pub args: Vec<String>,
    pub output: Option<String>,
}

/// The ghost form of a `FuncSig`.
#[verifier::ext_equal]
pub ghost struct FuncSigView {
    pub vis: bool,
    pub name: Seq<char>,
    pub args: Seq<Seq<char>>,
    pub output: Option<Seq<char>>,
}

impl View for FuncSig {
    type V = FuncSigView;

    open spec fn view(&self) -> FuncSigView {
        FuncSigView {
            vis: self.vis,
            name: self.name@,
            args: self.args.deep_view(),
            output: self.output.deep_view(),
        }
    }
}

impl Clone for FuncSig {
    fn clone(&self) -> (res: Self)
        ensures
            res@ == self@,
    {
        let args = self.args.clone();
        let output = match &self.output {
            Some(ret) => Some(ret.clone()),
            None => None,
        };
        proof {
            assert(args.deep_view() =~= self.args.deep_view());
        }
        let res = FuncSig { vis: self.vis, name: self.name.clone(), args, output };
        proof {
            assert(res@ =~~= self@);
        }
        res
    }
}

/// The methods collected from one inherent implementation block, with the
/// module path of the block.
pub struct Method {
    pub func: Vec<FuncSig>,
    pub path: ModulePath,
}

/// The ghost form of a `Method`.
#[verifier::ext_equal]
pub ghost struct MethodView {
    pub func: Seq<FuncSigView>,
    pub path: Seq<Seq<char>>,
}

impl View for Method {
    type V = MethodView;

    open spec fn view(&self) -> MethodView {
        MethodView { func: self.func@.map_values(|f: FuncSig| f@), path: self.path@ }
    }
}

impl Clone for Method {
    fn clone(&self) -> (res: Self)
        ensures
            res@ == self@,
    {
        let func = self.func.clone();
        proof {
            assert(func@.map_values(|f: FuncSig| f@) =~= self.func@.map_values(|f: FuncSig| f@))
                by {
                assert(forall|i: int|
                    0 <= i < self.func@.len() ==> (#[trigger] func@[i])@ == self.func@[i]@);
            }
        }
        let res = Method { func, path: self.path.clone() };
        proof {
            assert(res@ =~~= self@);
        }
        res
    }
}

/// One inherent method's signature as kept for the collection: the trait-impl
/// rendering of each parameter is dropped, the argument text is kept.
pub open spec fn func_of(m: ImplMethodSigView) -> FuncSigView {
    FuncSigView { vis: m.vis, name: m.name, args: m.args, output: m.output }
}

/// The method collection built from one inherent implementation block.
pub open spec fn method_of(ms: Seq<ImplMethodSigView>, path: Seq<Seq<char>>) -> MethodView {
    MethodView { func: ms.map_values(|m: ImplMethodSigView| func_of(m)), path: path }
}

/// Whether some method of the collection has an explicit return type whose
/// token split (on the return delimiter set, blank included) yields `name`:
/// the collection can produce a `name`.
pub open spec fn method_is_association(m: MethodView, name: Seq<char>) -> bool {
    exists|i: int|
        0 <= i < m.func.len() && (#[trigger] m.func[i]).output is Some && has_token(
            m.func[i].output.unwrap(),
            name,
            true,
        )
}

/// Whether some method of the collection has an argument text that ends with
/// `name`: the collection's behaviour mentions a `name` as a parameter.
pub open spec fn method_is_dependency(m: MethodView, name: Seq<char>) -> bool {
    exists|i: int, j: int|
        0 <= i < m.func.len() && 0 <= j < m.func[i].args.len() && ends_with(
            #[trigger] m.func[i].args[j],
            name,
        )
}

impl Method {
    /// Builds the method collection of one inherent implementation block.
    pub fn build(methods: &Vec<ImplMethodSig>, path: &ModulePath) -> (m: Method)
        ensures
            m@ == method_of(methods.deep_view(), path@),
    {
        let ghost msv = methods.deep_view();
        let mut func: Vec<FuncSig> = Vec::new();
        let mut i: usize = 0;
        while i < methods.len()
            invariant
                0 <= i <= methods@.len(),
                msv == methods.deep_view(),
                func@.len() == i,
                forall|k: int| 0 <= k < i ==> (#[trigger] func@[k])@ == func_of(msv[k]),
            decreases methods@.len() - i,
        {
            let ms = &methods[i];
            let args = ms.args.clone();
            let output = match &ms.output {
                Some(ret) => Some(ret.clone()),
                None => None,
            };
            proof {
                assert(args.deep_view() =~= ms.args.deep_view());
            }
            let f = FuncSig { vis: ms.vis, name: ms.name.clone(), args, output };
            proof {
                assert(f@ =~~= func_of(msv[i as int]));
            }
            func.push(f);
            i += 1;
        }
        let m = Method { func, path: path.clone() };
        proof {
            assert(m@.func =~= method_of(msv, path@).func);
            assert(m@ =~~= method_of(msv, path@));
        }
        m
    }

    /// Whether some method of this collection returns a token equal to
    /// `ty_name`.
    pub fn is_association(&self, ty_name: &String) -> (r: bool)
        ensures
            r == method_is_association(self@, ty_name@),
    {
        let mut i: usize = 0;
        while i < self.func.len()
            invariant
                0 <= i <= self.func@.len(),
                forall|i2: int|
                    0 <= i2 < i ==> !((#[trigger] self@.func[i2]).output is Some && has_token(
                        self@.func[i2].output.unwrap(),
                        ty_name@,
                        true,
                    )),
            decreases self.func@.len() - i,
        {
            match &self.func[i].output {
                Some(ret) => {
                    if contains_token(ret.as_str(), ty_name.as_str(), true) {
                        assert(self@.func[i as int].output is Some);
                        return true;
                    }
                },
                None => {},
            }
            assert(self@.func[i as int] == self.func@[i as int]@);
            i += 1;
        }
        false
    }

    /// Whether some method of this collection has an argument text ending
    /// with `name`.
    pub fn is_dependency(&self, name: &String) -> (r: bool)
        ensures
            r == method_is_dependency(self@, name@),
    {
        let mut i: usize = 0;
        while i < self.func.len()
            invariant
                0 <= i <= self.func@.len(),
                forall|i2: int, j: int|
                    0 <= i2 < i && 0 <= j < self@.func[i2].args.len() ==> !ends_with(
                        #[trigger] self@.func[i2].args[j],
                        name@,
                    ),
            decreases self.func@.len() - i,
        {
            let f = &self.func[i];
            let mut j: usize = 0;
            while j < f.args.len()
                invariant
                    0 <= j <= f.args@.len(),
                    f == &self.func[i as int],
                    0 <= i < self.func@.len(),
                    forall|j2: int|
                        0 <= j2 < j ==> !ends_with(#[trigger] self@.func[i as int].args[j2], name@),
                decreases f.args@.len() - j,
            {
                if str_ends_with(f.args[j].as_str(), name.as_str()) {
                    assert(ends_with(self@.func[i as int].args[j as int], name@));
                    return true;
                }
                assert(self@.func[i as int].args[j as int] == f.args@[j as int]@);
                j += 1;
            }
            assert(self@.func[i as int] == self.func@[i as int]@);
            i += 1;
        }
        false
    }
}


/// The record line of one inherent method: its visibility mark, the blank,
/// its name and argument texts, and, where a return type is present, the
/// arrow in its pre-escaped entity form and the return type.
pub open spec fn func_text(f: FuncSigView) -> Seq<char> {
    (if f.vis {
        "+"@
    } else {
        "-"@
    }) + " "@ + f.name + "("@ + joined(f.args, ", "@) + ")"@ + (match f.output {
        Some(ret) => " -&gt; "@ + ret,
        None => Seq::<char>::empty(),
    })
}

/// The record label of one method collection: its html-escaped method lines.
pub open spec fn method_label(m: MethodView) -> Seq<char> {
    html_escaped(joined(m.func.map_values(|f: FuncSigView| func_text(f)), "\n"@))
}

impl Method {
    /// The record label of this method collection.
    pub fn label(&self) -> (r: String)
        ensures
            r@ == method_label(self@),
    {
        let ghost fv = self.func@.map_values(|f: FuncSig| f@);
        let mut parts: Vec<String> = Vec::new();
        let mut i: usize = 0;
        while i < self.func.len()
            invariant
                fv == self.func@.map_values(|f: FuncSig| f@),
                0 <= i <= self.func@.len(),
                parts@.len() == i,
                forall|k: int| 0 <= k < i ==> (#[trigger] parts@[k])@ == func_text(fv[k]),
            decreases self.func@.len() - i,
        {
            let f = &self.func[i];
            let mut line: String = if f.vis {
                "+".to_owned()
            } else {
                "-".to_owned()
            };
            line.append(" ");
            line.append(f.name.as_str());
            line.append("(");
            let body = join_strings(&f.args, ", ");
            line.append(body.as_str());
            line.append(")");
            match &f.output {
                Some(ret) => {
                    line.append(" -&gt; ");
                    line.append(ret.as_str());
                },
                None => {},
            }
            proof {
                assert(f.args.deep_view() == fv[i as int].args);
                assert(line@ == func_text(fv[i as int]));
            }
            parts.push(line);
            i += 1;
        }
        proof {
            assert(parts.deep_view() =~= fv.map_values(|f: FuncSigView| func_text(f)));
        }
        let body = join_strings(&parts, "\n");
        escape_html(body.as_str())
    }
}

} // verus!
