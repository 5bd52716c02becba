use mml::decl::{Declaration, DeclKind, Field, VariantData};
use mml::module::Module;
use mml::module::path::ModulePath;

fn named_struct(name: &str, fields: &[(&str, &str)]) -> Declaration {
    Declaration {
        vis: false,
        name: name.to_string(),
        node: DeclKind::Struct(VariantData::Named(
            fields
                .iter()
                .map(|(n, t)| Field { vis: false, name: n.to_string(), ty: t.to_string() })
                .collect(),
        )),
    }
}

fn module(list: Vec<Declaration>) -> Module {
    Module { list, path: ModulePath { path: Vec::new() } }
}

#[test]
fn test_composition() {
    let m = module(vec![named_struct("A", &[("b", "B")]), named_struct("B", &[])]);
    assert_eq!(
        mml::rs2dot(m),
        r#"digraph ml {
    ndA[label="{&lt;&lt;&lt;Structure&gt;&gt;&gt;\nA|- b: B}"][shape="record"];
    ndB[label="{&lt;&lt;&lt;Structure&gt;&gt;&gt;\nB}"][shape="record"];
    ndB -> ndA[label=""][arrowhead="diamond"];
}
"#
    );
}

#[test]
fn test_composition_generic_field() {
    let m = module(vec![
        named_struct("A", &[("bs", "Vec<B>")]),
        named_struct("B", &[]),
    ]);
    let out = mml::rs2dot(m);
    assert!(out.contains("ndB -> ndA[label=\"\"][arrowhead=\"diamond\"];"));
}

#[test]
fn test_no_composition_on_name_part() {
    let m = module(vec![
        named_struct("A", &[("b", "Bird")]),
        named_struct("B", &[]),
    ]);
    let out = mml::rs2dot(m);
    assert!(!out.contains("ndB -> ndA"));
    assert!(!out.contains("ndA -> ndB"));
}
