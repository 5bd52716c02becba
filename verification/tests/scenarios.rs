use mml::decl::{Declaration, DeclKind, Field, ImplMethodSig, PathSeg, TraitMethodSig, VariantData,
    Variant};
use mml::module::{Module, ModuleItem};
use mml::module::path::ModulePath;
use mml::uml::item::Item;
use mml::uml::item::relation::{ArrowShape, Relation, Style};
use mml::uml::ListItem;

fn named_struct(name: &str, fields: &[(&str, &str)]) -> Declaration {
    Declaration {
        vis: false,
        name: name.to_string(),
        node: DeclKind::Struct(VariantData::Named(
            fields
                .iter()
                .map(|(n, t)| Field { vis: false, name: n.to_string(), ty: t.to_string() })
                .collect(),
        )),
    }
}

fn method(name: &str, args: &[&str], types: &[&str], output: Option<&str>) -> ImplMethodSig {
    ImplMethodSig {
        vis: false,
        name: name.to_string(),
        args: args.iter().map(|a| a.to_string()).collect(),
        types: types.iter().map(|t| t.to_string()).collect(),
        output: output.map(|t| t.to_string()),
    }
}

fn inherent_impl(methods: Vec<ImplMethodSig>) -> Declaration {
    Declaration { vis: false, name: String::new(), node: DeclKind::Impl(None, methods) }
}

fn trait_impl(segments: Vec<PathSeg>, methods: Vec<ImplMethodSig>) -> Declaration {
    Declaration { vis: false, name: String::new(), node: DeclKind::Impl(Some(segments), methods) }
}

fn trait_decl(name: &str, params: &[&str], methods: Vec<TraitMethodSig>) -> Declaration {
    Declaration {
        vis: false,
        name: name.to_string(),
        node: DeclKind::Trait(params.iter().map(|p| p.to_string()).collect(), methods),
    }
}

fn trait_method(name: &str, inputs: &[&str], output: Option<&str>) -> TraitMethodSig {
    TraitMethodSig {
        name: name.to_string(),
        inputs: inputs.iter().map(|t| t.to_string()).collect(),
        output: output.map(|t| t.to_string()),
    }
}

fn seg(name: &str, types: &[&str]) -> PathSeg {
    PathSeg { name: name.to_string(), types: types.iter().map(|t| t.to_string()).collect() }
}

fn other(name: &str) -> Declaration {
    Declaration { vis: false, name: name.to_string(), node: DeclKind::Other }
}

fn list_item(decls: Vec<Declaration>) -> ListItem {
    let items = decls
        .into_iter()
        .map(|decl| ModuleItem { decl, path: ModulePath { path: Vec::new() } })
        .collect();
    ListItem::new(Item::new(items))
}

#[test]
fn test_scenario_realization_generic_trait() {
    let it = list_item(vec![
        trait_decl("Trait_B", &["T"], vec![trait_method("a", &["&Self"], Some("Option<T>"))]),
        named_struct("A", &[("a", "T")]),
        trait_impl(vec![seg("Trait_B", &["T"])], vec![method(
            "a",
            &["&self"],
            &["&Self"],
            Some("Option<T>"),
        )]),
    ]);
    let edges = it.edges();
    assert_eq!(edges.len(), 1);
    let e = &edges[0];
    assert_eq!(it.node_id(&it.source(e)), "ndTrait_B");
    assert_eq!(it.node_id(&it.target(e)), "ndA");
    assert_eq!(it.edge_end_arrow(e), ArrowShape::OpenTriangle);
    assert_eq!(it.edge_style(e), Style::Dashed);
}

#[test]
fn test_composition_beats_association() {
    // B holds an A by value and can also produce an A: the edge kind must be
    // composition, drawn with the filled diamond, never association.
    let it = list_item(vec![
        named_struct("A", &[]),
        named_struct("B", &[("a", "A")]),
        inherent_impl(vec![method("make", &[], &[], Some("A"))]),
    ]);
    let nodes = it.nodes();
    assert_eq!(nodes.len(), 2);
    let a = &nodes[0];
    let b = &nodes[1];
    assert!(a.is_composition(b));
    assert!(a.is_association(b));
    assert_eq!(a.as_arrow(b), Relation::Composition);
    let edges = it.edges();
    assert_eq!(edges.len(), 1);
    assert_eq!(it.edge_end_arrow(&edges[0]), ArrowShape::FilledDiamond);
}

#[test]
fn test_unrecognized_groups_produce_nothing() {
    // Functions, constants and tuple structs classify as unrecognized: they
    // contribute no node and no edge at all.
    let it = list_item(vec![
        other("f"),
        Declaration {
            vis: false,
            name: "Pair".to_string(),
            node: DeclKind::Struct(VariantData::Tuple(vec!["u8".to_string(), "u8".to_string()])),
        },
        Declaration {
            vis: false,
            name: "Unit".to_string(),
            node: DeclKind::Struct(VariantData::Unit),
        },
    ]);
    assert_eq!(it.nodes().len(), 0);
    assert_eq!(it.edges().len(), 0);
}

#[test]
fn test_leading_impl_discarded() {
    // An implementation block before any type attaches to an unrecognized
    // group and is permanently discarded: its methods never reach A.
    let it = list_item(vec![
        other("use_decl"),
        inherent_impl(vec![method("lost", &[], &[], Some("B"))]),
        named_struct("A", &[]),
        named_struct("B", &[]),
    ]);
    let nodes = it.nodes();
    assert_eq!(nodes.len(), 2);
    assert_eq!(it.edges().len(), 0);
    assert!(!it.node_label(&nodes[0]).contains("lost"));
}

#[test]
fn test_enum_variant_payload_composition() {
    let it = list_item(vec![
        Declaration {
            vis: false,
            name: "E".to_string(),
            node: DeclKind::Enum(
                vec!["T".to_string()],
                vec![
                    Variant { name: "One".to_string(), data: VariantData::Tuple(vec![
                        "B".to_string(),
                    ]) },
                    Variant { name: "Two".to_string(), data: VariantData::Unit },
                ],
            ),
        },
        named_struct("B", &[]),
    ]);
    let nodes = it.nodes();
    assert_eq!(nodes.len(), 2);
    let b = &nodes[1];
    let e = &nodes[0];
    assert!(b.is_composition(e));
    assert_eq!(b.as_arrow(e), Relation::Composition);
}

#[test]
fn test_relation_arrow_table() {
    assert_eq!(Relation::Association.as_style(), ArrowShape::Vee);
    assert_eq!(Relation::Dependency.as_style(), ArrowShape::Vee);
    assert_eq!(Relation::Aggregation.as_style(), ArrowShape::OpenDiamond);
    assert_eq!(Relation::Composition.as_style(), ArrowShape::FilledDiamond);
    assert_eq!(Relation::Realization.as_style(), ArrowShape::OpenTriangle);
    assert_eq!(Relation::Unrelated.as_style(), ArrowShape::NoArrow);
}

#[test]
fn test_graph_metadata() {
    let it = list_item(vec![named_struct("A", &[])]);
    assert_eq!(it.graph_id(), "ml");
    let nodes = it.nodes();
    assert_eq!(it.node_shape(&nodes[0]), "record");
    assert_eq!(it.node_id(&nodes[0]), "ndA");
    assert_eq!(it.node_label(&nodes[0]), "{&lt;&lt;&lt;Structure&gt;&gt;&gt;\nA}");
}

#[test]
fn test_pointer_field_is_aggregation_not_composition() {
    let it = list_item(vec![
        named_struct("A", &[("b", "*mut B")]),
        named_struct("B", &[]),
    ]);
    let nodes = it.nodes();
    let b = &nodes[1];
    let a = &nodes[0];
    assert!(b.is_aggregation(a));
    assert!(!b.is_composition(a));
    assert_eq!(b.as_arrow(a), Relation::Aggregation);
}

#[test]
fn test_return_token_split_includes_blank() {
    // The return type text splits on the blank too, so a pointer return
    // yields the bare name as a token and associates.
    let it = list_item(vec![
        named_struct("A", &[]),
        named_struct("B", &[]),
        inherent_impl(vec![method("make", &[], &[], Some("*mut A"))]),
    ]);
    let nodes = it.nodes();
    let a = &nodes[0];
    let b = &nodes[1];
    assert!(a.is_association(b));
}

#[test]
fn test_label_quoting_of_control_character() {
    let m = Module {
        list: vec![named_struct("A", &[("b", "B\t")])],
        path: ModulePath { path: Vec::new() },
    };
    let out = mml::rs2dot(m);
    assert!(out.contains("- b: B\\t"));
}

#[test]
fn test_svg_text_equals_dot_text() {
    let mk = || Module {
        list: vec![named_struct("A", &[("b", "B")]), named_struct("B", &[])],
        path: ModulePath { path: Vec::new() },
    };
    assert_eq!(mml::rs2svg(mk()), mml::rs2dot(mk()));
    assert_eq!(mml::src2svg(vec![mk()]), mml::src2dot(vec![mk()]));
}

#[test]
fn test_default_output_names() {
    assert_eq!(mml::DEFAULT_NAME_DOT, "ml.dot");
    assert_eq!(mml::DEFAULT_NAME_PNG, "ml.svg");
}

#[test]
fn test_duplicate_edge_collapsed() {
    // Both directions of the pair yield a candidate; the assembled set keeps
    // one edge only, in the first-inserted orientation.
    let it = list_item(vec![
        named_struct("A", &[("b", "B")]),
        named_struct("B", &[("a", "A")]),
    ]);
    let edges = it.edges();
    assert_eq!(edges.len(), 1);
    assert_eq!(it.node_id(&it.source(&edges[0])), "ndA");
    assert_eq!(it.node_id(&it.target(&edges[0])), "ndB");
}

#[test]
fn test_realization_checks_first_segment_only() {
    let it = list_item(vec![
        trait_decl("Seg2", &[], vec![]),
        named_struct("A", &[]),
        trait_impl(vec![seg("Seg1", &[]), seg("Seg2", &[])], vec![]),
    ]);
    let nodes = it.nodes();
    let t = &nodes[0];
    let a = &nodes[1];
    assert!(!t.is_realization(a));
    assert_eq!(it.edges().len(), 0);
}
