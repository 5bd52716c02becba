use mml::decl::{Declaration, DeclKind, Field, ImplMethodSig, VariantData};
use mml::module::Module;
use mml::module::path::ModulePath;

fn named_struct(name: &str, fields: &[(&str, &str)]) -> Declaration {
    Declaration {
        vis: false,
        name: name.to_string(),
        node: DeclKind::Struct(VariantData::Named(
            fields
                .iter()
                .map(|(n, t)| Field { vis: false, name: n.to_string(), ty: t.to_string() })
                .collect(),
        )),
    }
}

fn method(name: &str, args: &[&str], types: &[&str], output: Option<&str>) -> ImplMethodSig {
    ImplMethodSig {
        vis: false,
        name: name.to_string(),
        args: args.iter().map(|a| a.to_string()).collect(),
        types: types.iter().map(|t| t.to_string()).collect(),
        output: output.map(|t| t.to_string()),
    }
}

fn inherent_impl(methods: Vec<ImplMethodSig>) -> Declaration {
    Declaration { vis: false, name: String::new(), node: DeclKind::Impl(None, methods) }
}

fn module(list: Vec<Declaration>) -> Module {
    Module { list, path: ModulePath { path: Vec::new() } }
}

#[test]
fn test_association() {
    let m = module(vec![
        named_struct("A", &[]),
        inherent_impl(vec![method("b", &[], &[], Some("B"))]),
        named_struct("Ab", &[]),
        inherent_impl(vec![method("b", &[], &[], Some("B"))]),
        named_struct("B", &[]),
        inherent_impl(vec![method("a", &[], &[], Some("Ab"))]),
    ]);
    assert_eq!(
        mml::rs2dot(m),
        r#"digraph ml {
    ndA[label="{&lt;&lt;&lt;Structure&gt;&gt;&gt;\nA|- b() -&amp;gt; B}"][shape="record"];
    ndAb[label="{&lt;&lt;&lt;Structure&gt;&gt;&gt;\nAb|- b() -&amp;gt; B}"][shape="record"];
    ndB[label="{&lt;&lt;&lt;Structure&gt;&gt;&gt;\nB|- a() -&amp;gt; Ab}"][shape="record"];
    ndAb -> ndB[label=""][arrowhead="none"];
    ndB -> ndA[label=""][arrowhead="vee"];
}
"#
    );
}
