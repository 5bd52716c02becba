//! The trait entity.

use vstd::prelude::*;
use crate::decl::{Declaration, DeclarationView, DeclKind, DeclKindView, TraitMethodSig,
    TraitMethodSigView};
use crate::text::{html_escaped, joined, escape_html, join_strings};

verus! {

/// One trait method's signature: name, rendered parameter type texts, and the
/// rendered return type.  Only methods with an explicit return type are
/// captured, so the return is always present here.
pub struct TraitItemSig {
    pub name: String,
    pub inputs: Vec<String>,
    pub ret: String,
}

/// The ghost form of a `TraitItemSig`.
#[verifier::ext_equal]
pub ghost struct TraitItemSigView {
    pub name: Seq<char>,
    pub inputs: Seq<Seq<char>>,
    pub ret: Seq<char>,
}

impl View for TraitItemSig {
    type V = TraitItemSigView;

    open spec fn view(&self) -> TraitItemSigView {
        TraitItemSigView { name: self.name@, inputs: self.inputs.deep_view(), ret: self.ret@ }
    }
}

impl Clone for TraitItemSig {
    fn clone(&self) -> (res: Self)
        ensures
            res@ == self@,
    {
        let inputs = self.inputs.clone();
        proof {
            assert(inputs.deep_view() =~= self.inputs.deep_view());
        }
        let res = TraitItemSig { name: self.name.clone(), inputs, ret: self.ret.clone() };
        proof {
            assert(res@ =~~= self@);
        }
        res
    }
}

/// A trait entity: visibility, name, type-parameter names, and the signatures
/// of its explicitly-returning method declarations.
pub struct Trait {
    pub vis: bool,
    pub name: String,
    pub params: Vec<String>,
    pub items: Vec<TraitItemSig>,
}

/// The ghost form of a `Trait`.
#[verifier::ext_equal]
pub ghost struct TraitView {
    pub vis: bool,
    pub name: Seq<char>,
    pub params: Seq<Seq<char>>,
    pub items: Seq<TraitItemSigView>,
}

impl View for Trait {
    type V = TraitView;

    open spec fn view(&self) -> TraitView {
        TraitView {
            vis: self.vis,
            name: self.name@,
            params: self.params.deep_view(),
            items: self.items@.map_values(|it: TraitItemSig| it@),
        }
    }
}

impl Clone for Trait {
    fn clone(&self) -> (res: Self)
        ensures
            res@ == self@,
    {
        let params = self.params.clone();
        let items = self.items.clone();
        proof {
            assert(params.deep_view() =~= self.params.deep_view());
            assert(items@.map_values(|it: TraitItemSig| it@) =~= self.items@.map_values(
                |it: TraitItemSig| it@,
            )) by {
                assert(forall|i: int|
                    0 <= i < self.items@.len() ==> (#[trigger] items@[i])@ == self.items@[i]@);
            }
        }
        let res = Trait { vis: self.vis, name: self.name.clone(), params, items };
        proof {
            assert(res@ =~~= self@);
        }
        res
    }
}

/// The trait-method signatures kept for a trait entity: one per declared
/// method with an explicit return type, in order; a method with an elided or
/// default return type contributes no signature at all.
pub open spec fn trait_items_of(ms: Seq<TraitMethodSigView>) -> Seq<TraitItemSigView>
    decreases ms.len(),
{
    if ms.len() == 0 {
        Seq::empty()
    } else {
        trait_items_of(ms.drop_last()) + match ms.last().output {
            Some(ret) => seq![
                TraitItemSigView { name: ms.last().name, inputs: ms.last().inputs, ret: ret },
            ],
            None => Seq::empty(),
        }
    }
}

/// The type-parameter names a trait declaration carries.
pub open spec fn trait_params(k: DeclKindView) -> Seq<Seq<char>> {
    match k {
        DeclKindView::Trait(params, _) => params,
        _ => Seq::empty(),
    }
}

/// The method declarations a trait declaration carries.
pub open spec fn trait_methods(k: DeclKindView) -> Seq<TraitMethodSigView> {
    match k {
        DeclKindView::Trait(_, methods) => methods,
        _ => Seq::empty(),
    }
}

/// The trait entity built from a trait declaration.
pub open spec fn trait_of(d: DeclarationView) -> TraitView {
    TraitView {
        vis: d.vis,
        name: d.name,
        params: trait_params(d.node),
        items: trait_items_of(trait_methods(d.node)),
    }
}

impl Trait {
    /// Builds the trait entity of a trait declaration, dropping every method
    /// whose declaration has no explicit return type.
    pub fn build(decl: &Declaration) -> (t: Trait)
        requires
            decl@.node matches DeclKindView::Trait(_, _),
        ensures
            t@ == trait_of(decl@),
    {
        match &decl.node {
            DeclKind::Trait(params, methods) => {
                let ps = params.clone();
                proof {
                    assert(ps.deep_view() =~= params.deep_view());
                }
                let ghost msv = methods@.map_values(|m: TraitMethodSig| m@);
                let mut items: Vec<TraitItemSig> = Vec::new();
                let mut i: usize = 0;
                while i < methods.len()
                    invariant
                        0 <= i <= methods.len(),
                        msv == methods@.map_values(|m: TraitMethodSig| m@),
                        items@.map_values(|it: TraitItemSig| it@) =~= trait_items_of(
                            msv.take(i as int),
                        ),
                    decreases methods.len() - i,
                {
                    let m = &methods[i];
                    proof {
                        assert(msv.take(i as int + 1).drop_last() =~= msv.take(i as int));
                        assert(msv.take(i as int + 1).last() == msv[i as int]);
                    }
                    match &m.output {
                        Some(ret) => {
                            let inputs = m.inputs.clone();
                            proof {
                                assert(inputs.deep_view() =~= m.inputs.deep_view());
                            }
                            let item = TraitItemSig {
                                name: m.name.clone(),
                                inputs,
                                ret: ret.clone(),
                            };
                            proof {
                                assert(msv[i as int].output is Some);
                                assert(item@ =~~= TraitItemSigView {
                                    name: msv[i as int].name,
                                    inputs: msv[i as int].inputs,
                                    ret: msv[i as int].output.unwrap(),
                                });
                            }
                            items.push(item);
                            proof {
                                assert(items@.map_values(|it: TraitItemSig| it@) =~= trait_items_of(
                                    msv.take(i as int + 1),
                                ));
                            }
                        },
                        None => {
                            proof {
                                assert(msv[i as int].output is None);
                                assert(items@.map_values(|it: TraitItemSig| it@) =~= trait_items_of(
                                    msv.take(i as int + 1),
                                ));
                            }
                        },
                    }
                    i += 1;
                }
                proof {
                    assert(msv.take(methods@.len() as int) =~= msv);
                }
                let t = Trait { vis: decl.vis, name: decl.name.clone(), params: ps, items };
                proof {
                    assert(t@ =~~= trait_of(decl@));
                }
                t
            },
            _ => {
                proof {
                    assert(false);
                }
                vstd::pervasive::unreached()
            },
        }
    }
}


/// The record line of one trait method: its name, parameter type texts, and
/// return type, with the arrow written in its pre-escaped entity form.
pub open spec fn trait_item_text(it: TraitItemSigView) -> Seq<char> {
    it.name + "("@ + joined(it.inputs, ", "@) + ") -&gt; "@ + it.ret
}

/// The record label of a trait entity: the trait header and name, and the
/// html-escaped method lines, present even when no method was kept.
pub open spec fn trait_label(t: TraitView) -> Seq<char> {
    "&lt;&lt;&lt;Trait&gt;&gt;&gt;\n"@ + t.name + "|"@ + html_escaped(
        joined(t.items.map_values(|it: TraitItemSigView| trait_item_text(it)), "\n"@),
    )
}

impl Trait {
    /// The record label of this trait entity.
    pub fn label(&self) -> (r: String)
        ensures
            r@ == trait_label(self@),
    {
        let mut out: String = "&lt;&lt;&lt;Trait&gt;&gt;&gt;\n".to_owned();
        out.append(self.name.as_str());
        let ghost iv = self.items@.map_values(|it: TraitItemSig| it@);
        let mut parts: Vec<String> = Vec::new();
        let mut i: usize = 0;
        while i < self.items.len()
            invariant
                iv == self.items@.map_values(|it: TraitItemSig| it@),
                0 <= i <= self.items@.len(),
                parts@.len() == i,
                forall|k: int| 0 <= k < i ==> (#[trigger] parts@[k])@ == trait_item_text(iv[k]),
            decreases self.items@.len() - i,
        {
            let it = &self.items[i];
            let mut line: String = it.name.clone();
            line.append("(");
            let body = join_strings(&it.inputs, ", ");
            line.append(body.as_str());
            line.append(") -&gt; ");
            line.append(it.ret.as_str());
            proof {
                assert(it.inputs.deep_view() == iv[i as int].inputs);
                assert(line@ == trait_item_text(iv[i as int]));
            }
            parts.push(line);
            i += 1;
        }
        proof {
            assert(parts.deep_view() =~= iv.map_values(
                |it: TraitItemSigView| trait_item_text(it),
            ));
        }
        let body = join_strings(&parts, "\n");
        let esc = escape_html(body.as_str());
        out.append("|");
        out.append(esc.as_str());
        out
    }
}

} // verus!
