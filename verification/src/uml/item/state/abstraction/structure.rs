//! The structure entity: a struct with named fields.

use vstd::prelude::*;
use crate::decl::{Declaration, DeclarationView, DeclKind, DeclKindView, VariantData,
    VariantDataView, Field, FieldView};
use crate::module::path::ModulePath;
use crate::text::{html_escaped, joined, escape_html, join_strings};

verus! {

/// A struct entity: its module path, visibility, name, and named fields with
/// their rendered type texts, captured verbatim.
pub struct Struct {
    pub path: ModulePath,
    pub vis: bool,
    pub name: String,
    pub fields: Vec<Field>,
}

/// The ghost form of a `Struct`.
#[verifier::ext_equal]
pub ghost struct StructView {
    pub path: Seq<Seq<char>>,
    pub vis: bool,
    pub name: Seq<char>,
    pub fields: Seq<FieldView>,
}

impl View for Struct {
    type V = StructView;

    open spec fn view(&self) -> StructView {
        StructView {
            path: self.path@,
            vis: self.vis,
            name: self.name@,
            fields: self.fields@.map_values(|f: Field| f@),
        }
    }
}

impl Clone for Struct {
    fn clone(&self) -> (res: Self)
        ensures
            res@ == self@,
    {
        let fields = self.fields.clone();
        proof {
            assert(fields@.map_values(|f: Field| f@) =~= self.fields@.map_values(|f: Field| f@))
                by {
                assert(forall|i: int| 0 <= i < self.fields@.len() ==> fields@[i] == self.fields@[i]);
            }
        }
        let res = Struct {
            path: self.path.clone(),
            vis: self.vis,
            name: self.name.clone(),
            fields,
        };
        proof {
            assert(res@ =~~= self@);
        }
        res
    }
}

/// The named fields a struct declaration carries, empty for any other shape.
pub open spec fn named_fields(k: DeclKindView) -> Seq<FieldView> {
    match k {
        DeclKindView::Struct(VariantDataView::Named(fields)) => fields,
        _ => Seq::empty(),
    }
}

/// The struct entity built from a named-field struct declaration.
pub open spec fn struct_of(d: DeclarationView, path: Seq<Seq<char>>) -> StructView {
    StructView { path: path, vis: d.vis, name: d.name, fields: named_fields(d.node) }
}

impl Struct {
    /// Builds the struct entity of a named-field struct declaration: name and
    /// fields are taken verbatim from the parser's rendering.
    pub fn build(decl: &Declaration, path: &ModulePath) -> (s: Struct)
        requires
            decl@.node matches DeclKindView::Struct(VariantDataView::Named(_)),
        ensures
            s@ == struct_of(decl@, path@),
    {
        match &decl.node {
            DeclKind::Struct(VariantData::Named(fields)) => {
                let fs = fields.clone();
                proof {
                    assert(fs@.map_values(|f: Field| f@) =~= fields@.map_values(|f: Field| f@))
                        by {
                        assert(forall|i: int|
                            0 <= i < fields@.len() ==> fs@[i] == fields@[i]);
                    }
                }
                let s = Struct {
                    path: path.clone(),
                    vis: decl.vis,
                    name: decl.name.clone(),
                    fields: fs,
                };
                proof {
                    assert(s@ =~~= struct_of(decl@, path@));
                }
                s
            },
            _ => {
                proof {
                    assert(false);
                }
                vstd::pervasive::unreached()
            },
        }
    }
}


/// The record line of one field: its visibility mark, name and type text.
pub open spec fn field_text(f: FieldView) -> Seq<char> {
    (if f.vis {
        "+ "@
    } else {
        "- "@
    }) + f.name + ": "@ + f.ty
}

/// The record label of a struct entity: the structure header and name, and,
/// where fields exist, the html-escaped field lines.
pub open spec fn struct_label(s: StructView) -> Seq<char> {
    if s.fields.len() == 0 {
        "&lt;&lt;&lt;Structure&gt;&gt;&gt;\n"@ + s.name
    } else {
        "&lt;&lt;&lt;Structure&gt;&gt;&gt;\n"@ + s.name + "|"@ + html_escaped(
            joined(s.fields.map_values(|f: FieldView| field_text(f)), "\n"@),
        )
    }
}

impl Struct {
    /// The record label of this struct entity.
    pub fn label(&self) -> (r: String)
        ensures
            r@ == struct_label(self@),
    {
        let mut out: String = "&lt;&lt;&lt;Structure&gt;&gt;&gt;\n".to_owned();
        out.append(self.name.as_str());
        if self.fields.len() == 0 {
            return out;
        }
        let ghost fv = self.fields@.map_values(|f: Field| f@);
        let mut parts: Vec<String> = Vec::new();
        let mut i: usize = 0;
        while i < self.fields.len()
            invariant
                fv == self.fields@.map_values(|f: Field| f@),
                0 <= i <= self.fields@.len(),
                parts@.len() == i,
                forall|k: int| 0 <= k < i ==> (#[trigger] parts@[k])@ == field_text(fv[k]),
            decreases self.fields@.len() - i,
        {
            let f = &self.fields[i];
            let mut line: String = if f.vis {
                "+ ".to_owned()
            } else {
                "- ".to_owned()
            };
            line.append(f.name.as_str());
            line.append(": ");
            line.append(f.ty.as_str());
            proof {
                assert(line@ == field_text(fv[i as int]));
            }
            parts.push(line);
            i += 1;
        }
        proof {
            assert(parts.deep_view() =~= fv.map_values(|f: FieldView| field_text(f)));
        }
        let body = join_strings(&parts, "\n");
        let esc = escape_html(body.as_str());
        out.append("|");
        out.append(esc.as_str());
        out
    }
}

} // verus!
