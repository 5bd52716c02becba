use mml::decl::{Declaration, DeclKind, Field, VariantData};
use mml::module::Module;
use mml::module::path::ModulePath;

fn named_struct(name: &str, fields: &[(&str, &str)]) -> Declaration {
    Declaration {
        vis: false,
        name: name.to_string(),
        node: DeclKind::Struct(VariantData::Named(
            fields
                .iter()
                .map(|(n, t)| Field { vis: false, name: n.to_string(), ty: t.to_string() })
                .collect(),
        )),
    }
}

fn module(list: Vec<Declaration>) -> Module {
    Module { list, path: ModulePath { path: Vec::new() } }
}

#[test]
fn test_aggregation() {
    let m = module(vec![
        named_struct("Amut", &[("b", "*mut B")]),
        named_struct("Aconst", &[("b", "*const B")]),
        named_struct("B", &[]),
    ]);
    assert_eq!(
        mml::rs2dot(m),
        r#"digraph ml {
    ndAmut[label="{&lt;&lt;&lt;Structure&gt;&gt;&gt;\nAmut|- b: *mut B}"][shape="record"];
    ndAconst[label="{&lt;&lt;&lt;Structure&gt;&gt;&gt;\nAconst|- b: *const B}"][shape="record"];
    ndB[label="{&lt;&lt;&lt;Structure&gt;&gt;&gt;\nB}"][shape="record"];
    ndB -> ndAmut[label=""][arrowhead="odiamond"];
    ndB -> ndAconst[label=""][arrowhead="odiamond"];
}
"#
    );
}
