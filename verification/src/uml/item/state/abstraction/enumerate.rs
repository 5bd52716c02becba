//! The enumeration entity.

use vstd::prelude::*;
use crate::decl::{Declaration, DeclarationView, DeclKind, DeclKindView, Variant, VariantView,
    VariantData, VariantDataView};
use crate::text::{html_escaped, joined, escape_html, join_strings};

verus! {

/// One variant's signature: its name and, for a tuple-style variant, its
/// rendered payload type texts.  Struct-style variant fields are dropped: the
/// payload list stays empty for them, as for unit variants.
pub struct VariantSig {
    pub name: String,
    pub types: Vec<String>,
}

/// The ghost form of a `VariantSig`.
#[verifier::ext_equal]
pub ghost struct VariantSigView {
    pub name: Seq<char>,
    pub types: Seq<Seq<char>>,
}

impl View for VariantSig {
    type V = VariantSigView;

    open spec fn view(&self) -> VariantSigView {
        VariantSigView { name: self.name@, types: self.types.deep_view() }
    }
}

impl Clone for VariantSig {
    fn clone(&self) -> (res: Self)
        ensures
            res@ == self@,
    {
        let types = self.types.clone();
        proof {
            assert(types.deep_view() =~= self.types.deep_view());
        }
        let res = VariantSig { name: self.name.clone(), types };
        proof {
            assert(res@ =~~= self@);
        }
        res
    }
}

/// An enum entity: visibility, name, the entity's type-parameter names, and
/// one signature per variant.
pub struct Enum {
    pub vis: bool,
    pub name: String,
    pub params: Vec<String>,
    pub variants: Vec<VariantSig>,
}

/// The ghost form of an `Enum`.
#[verifier::ext_equal]
pub ghost struct EnumView {
    pub vis: bool,
    pub name: Seq<char>,
    pub params: Seq<Seq<char>>,
    pub variants: Seq<VariantSigView>,
}

impl View for Enum {
    type V = EnumView;

    open spec fn view(&self) -> EnumView {
        EnumView {
            vis: self.vis,
            name: self.name@,
            params: self.params.deep_view(),
            variants: self.variants@.map_values(|v: VariantSig| v@),
        }
    }
}

impl Clone for Enum {
    fn clone(&self) -> (res: Self)
        ensures
            res@ == self@,
    {
        let params = self.params.clone();
        let variants = self.variants.clone();
        proof {
            assert(params.deep_view() =~= self.params.deep_view());
            assert(variants@.map_values(|v: VariantSig| v@) =~= self.variants@.map_values(
                |v: VariantSig| v@,
            )) by {
                assert(forall|i: int|
                    0 <= i < self.variants@.len() ==> (#[trigger] variants@[i])@
                        == self.variants@[i]@);
            }
        }
        let res = Enum { vis: self.vis, name: self.name.clone(), params, variants };
        proof {
            assert(res@ =~~= self@);
        }
        res
    }
}

/// The payload type texts a variant shape contributes: a tuple-style payload
/// verbatim, nothing for named fields or a unit variant.
pub open spec fn variant_types(d: VariantDataView) -> Seq<Seq<char>> {
    match d {
        VariantDataView::Tuple(types) => types,
        _ => Seq::empty(),
    }
}

/// One variant's signature as built from its declaration.
pub open spec fn variant_sig_of(v: VariantView) -> VariantSigView {
    VariantSigView { name: v.name, types: variant_types(v.data) }
}

/// The type-parameter names an enum declaration carries.
pub open spec fn enum_params(k: DeclKindView) -> Seq<Seq<char>> {
    match k {
        DeclKindView::Enum(params, _) => params,
        _ => Seq::empty(),
    }
}

/// The variants an enum declaration carries.
pub open spec fn enum_variants(k: DeclKindView) -> Seq<VariantView> {
    match k {
        DeclKindView::Enum(_, variants) => variants,
        _ => Seq::empty(),
    }
}

/// The enum entity built from an enum declaration.
pub open spec fn enum_of(d: DeclarationView) -> EnumView {
    EnumView {
        vis: d.vis,
        name: d.name,
        params: enum_params(d.node),
        variants: enum_variants(d.node).map_values(|v: VariantView| variant_sig_of(v)),
    }
}

impl Enum {
    /// Builds the enum entity of an enum declaration: type-parameter names are
    /// recorded once for the entity; tuple-style payload types per variant;
    /// struct-style variant fields are dropped.
    pub fn build(decl: &Declaration) -> (e: Enum)
        requires
            decl@.node matches DeclKindView::Enum(_, _),
        ensures
            e@ == enum_of(decl@),
    {
        match &decl.node {
            DeclKind::Enum(params, variants) => {
                let ps = params.clone();
                proof {
                    assert(ps.deep_view() =~= params.deep_view());
                }
                let ghost vsv = variants@.map_values(|v: Variant| v@);
                let mut sigs: Vec<VariantSig> = Vec::new();
                let mut i: usize = 0;
                while i < variants.len()
                    invariant
                        0 <= i <= variants.len(),
                        vsv == variants@.map_values(|v: Variant| v@),
                        sigs@.len() == i,
                        forall|k: int|
                            0 <= k < i ==> (#[trigger] sigs@[k])@ == variant_sig_of(vsv[k]),
                    decreases variants.len() - i,
                {
                    let v = &variants[i];
                    let types: Vec<String> = match &v.data {
                        VariantData::Tuple(types) => {
                            let ts = types.clone();
                            proof {
                                assert(ts.deep_view() =~= types.deep_view());
                            }
                            ts
                        },
                        _ => Vec::new(),
                    };
                    proof {
                        assert(types.deep_view() =~= variant_types(v@.data));
                    }
                    let sig = VariantSig { name: v.name.clone(), types };
                    proof {
                        assert(sig@ =~~= variant_sig_of(vsv[i as int]));
                    }
                    sigs.push(sig);
                    i += 1;
                }
                proof {
                    assert(sigs@.map_values(|s: VariantSig| s@) =~= vsv.map_values(
                        |v: VariantView| variant_sig_of(v),
                    ));
                }
                let e = Enum { vis: decl.vis, name: decl.name.clone(), params: ps, variants: sigs };
                proof {
                    assert(e@ =~~= enum_of(decl@));
                }
                e
            },
            _ => {
                proof {
                    assert(false);
                }
                vstd::pervasive::unreached()
            },
        }
    }
}


/// The record line of one variant: its name, with the payload types in
/// parentheses where the payload is not empty.
pub open spec fn variant_text(v: VariantSigView) -> Seq<char> {
    if v.types.len() == 0 {
        v.name
    } else {
        v.name + "("@ + joined(v.types, ", "@) + ")"@
    }
}

/// The record label of an enum entity: the enumeration header and name, and,
/// where variants exist, the html-escaped variant lines.
pub open spec fn enum_label(e: EnumView) -> Seq<char> {
    if e.variants.len() == 0 {
        "&lt;&lt;&lt;Enumeration&gt;&gt;&gt;\n"@ + e.name
    } else {
        "&lt;&lt;&lt;Enumeration&gt;&gt;&gt;\n"@ + e.name + "|"@ + html_escaped(
            joined(e.variants.map_values(|v: VariantSigView| variant_text(v)), "\n"@),
        )
    }
}

impl Enum {
    /// The record label of this enum entity.
    pub fn label(&self) -> (r: String)
        ensures
            r@ == enum_label(self@),
    {
        let mut out: String = "&lt;&lt;&lt;Enumeration&gt;&gt;&gt;\n".to_owned();
        out.append(self.name.as_str());
        if self.variants.len() == 0 {
            return out;
        }
        let ghost vv = self.variants@.map_values(|v: VariantSig| v@);
        let mut parts: Vec<String> = Vec::new();
        let mut i: usize = 0;
        while i < self.variants.len()
            invariant
                vv == self.variants@.map_values(|v: VariantSig| v@),
                0 <= i <= self.variants@.len(),
                parts@.len() == i,
                forall|k: int| 0 <= k < i ==> (#[trigger] parts@[k])@ == variant_text(vv[k]),
            decreases self.variants@.len() - i,
        {
            let v = &self.variants[i];
            let mut line: String = v.name.clone();
            if v.types.len() > 0 {
                line.append("(");
                let body = join_strings(&v.types, ", ");
                line.append(body.as_str());
                line.append(")");
            }
            proof {
                assert(v.types.deep_view() == vv[i as int].types);
                assert(line@ == variant_text(vv[i as int]));
            }
            parts.push(line);
            i += 1;
        }
        proof {
            assert(parts.deep_view() =~= vv.map_values(|v: VariantSigView| variant_text(v)));
        }
        let body = join_strings(&parts, "\n");
        let esc = escape_html(body.as_str());
        out.append("|");
        out.append(esc.as_str());
        out
    }
}

} // verus!
