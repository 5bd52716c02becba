use mml::decl::{Declaration, DeclKind, Field, ImplMethodSig, PathSeg, TraitMethodSig, VariantData};
use mml::module::Module;
use mml::module::path::ModulePath;

fn named_struct(name: &str, fields: &[(&str, &str)]) -> Declaration {
    Declaration {
        vis: false,
        name: name.to_string(),
        node: DeclKind::Struct(VariantData::Named(
            fields
                .iter()
                .map(|(n, t)| Field { vis: false, name: n.to_string(), ty: t.to_string() })
                .collect(),
        )),
    }
}

fn method(name: &str, args: &[&str], types: &[&str], output: Option<&str>) -> ImplMethodSig {
    ImplMethodSig {
        vis: false,
        name: name.to_string(),
        args: args.iter().map(|a| a.to_string()).collect(),
        types: types.iter().map(|t| t.to_string()).collect(),
        output: output.map(|t| t.to_string()),
    }
}

fn inherent_impl(methods: Vec<ImplMethodSig>) -> Declaration {
    Declaration { vis: false, name: String::new(), node: DeclKind::Impl(None, methods) }
}

fn trait_impl(segments: Vec<PathSeg>, methods: Vec<ImplMethodSig>) -> Declaration {
    Declaration { vis: false, name: String::new(), node: DeclKind::Impl(Some(segments), methods) }
}

fn trait_decl(name: &str, params: &[&str], methods: Vec<TraitMethodSig>) -> Declaration {
    Declaration {
        vis: false,
        name: name.to_string(),
        node: DeclKind::Trait(params.iter().map(|p| p.to_string()).collect(), methods),
    }
}

fn trait_method(name: &str, inputs: &[&str], output: Option<&str>) -> TraitMethodSig {
    TraitMethodSig {
        name: name.to_string(),
        inputs: inputs.iter().map(|t| t.to_string()).collect(),
        output: output.map(|t| t.to_string()),
    }
}

fn seg(name: &str, types: &[&str]) -> PathSeg {
    PathSeg { name: name.to_string(), types: types.iter().map(|t| t.to_string()).collect() }
}

fn module(list: Vec<Declaration>) -> Module {
    Module { list, path: ModulePath { path: Vec::new() } }
}

#[test]
fn test_realization() {
    let m = module(vec![
        named_struct("A", &[("a", "T")]),
        inherent_impl(vec![method("a", &["a: T"], &["T"], Some("Self"))]),
        trait_impl(
            vec![seg("B", &["T"])],
            vec![method("a", &["&self"], &["&Self"], Some("Option<T>"))],
        ),
        trait_decl("B", &["T"], vec![trait_method("a", &["&Self"], Some("Option<T>"))]),
        inherent_impl(vec![method("a", &["&self"], &["&Self"], Some("Option<T>"))]),
    ]);
    assert_eq!(
        mml::rs2dot(m),
        r#"digraph ml {
    ndA[label="{&lt;&lt;&lt;Structure&gt;&gt;&gt;\nA|- a: T|- a(a: T) -&amp;gt; Self}"][shape="record"];
    ndB[label="{&lt;&lt;&lt;Trait&gt;&gt;&gt;\nB|a(&amp;Self) -&amp;gt; Option&lt;T&gt;|- a(&amp;self) -&amp;gt; Option&lt;T&gt;}"][shape="record"];
    ndB -> ndA[label=""][style="dashed"][arrowhead="onormal"];
}
"#
    );
}

#[test]
fn test_trait_default_return_dropped() {
    let m = module(vec![trait_decl(
        "T1",
        &[],
        vec![trait_method("go", &["&Self"], None), trait_method("get", &["&Self"], Some("u32"))],
    )]);
    let out = mml::rs2dot(m);
    assert!(out.contains("ndT1"));
    assert!(!out.contains("go("));
    assert!(out.contains("get(&amp;Self) -&amp;gt; u32"));
}
