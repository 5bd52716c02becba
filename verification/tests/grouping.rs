use mml::decl::{Declaration, DeclKind, Field, ImplMethodSig, VariantData};
use mml::module::{Module, ModuleItem};
use mml::module::path::ModulePath;
use mml::uml::item::Item;
use mml::uml::item::relation::Relation;
use mml::uml::ListItem;

fn named_struct(name: &str, fields: &[(&str, &str)]) -> Declaration {
    Declaration {
        vis: false,
        name: name.to_string(),
        node: DeclKind::Struct(VariantData::Named(
            fields
                .iter()
                .map(|(n, t)| Field { vis: false, name: n.to_string(), ty: t.to_string() })
                .collect(),
        )),
    }
}

fn method(name: &str, args: &[&str], types: &[&str], output: Option<&str>) -> ImplMethodSig {
    ImplMethodSig {
        vis: false,
        name: name.to_string(),
        args: args.iter().map(|a| a.to_string()).collect(),
        types: types.iter().map(|t| t.to_string()).collect(),
        output: output.map(|t| t.to_string()),
    }
}

fn inherent_impl(methods: Vec<ImplMethodSig>) -> Declaration {
    Declaration { vis: false, name: String::new(), node: DeclKind::Impl(None, methods) }
}

fn other(name: &str) -> Declaration {
    Declaration { vis: false, name: name.to_string(), node: DeclKind::Other }
}

fn list_item(decls: Vec<Declaration>) -> ListItem {
    let items = decls
        .into_iter()
        .map(|decl| ModuleItem { decl, path: ModulePath { path: Vec::new() } })
        .collect();
    ListItem::new(Item::new(items))
}

#[test]
fn test_next_skips_unrecognized_groups() {
    let mut it = list_item(vec![
        other("f"),
        named_struct("A", &[]),
        inherent_impl(vec![method("go", &[], &[], None)]),
        other("g"),
        named_struct("B", &[]),
    ]);
    let first = it.next().expect("first entity");
    assert_eq!(first.as_name().map(|n| n.as_str()), Some("A"));
    let second = it.next().expect("second entity");
    assert_eq!(second.as_name().map(|n| n.as_str()), Some("B"));
    assert!(it.next().is_none());
}

#[test]
fn test_impl_blocks_attach_to_preceding_type() {
    // The cursor consumes every implementation block that directly follows a
    // type; the next type starts a fresh group.
    let it = list_item(vec![
        named_struct("A", &[]),
        inherent_impl(vec![method("go", &[], &[], Some("B"))]),
        named_struct("B", &[]),
        inherent_impl(vec![method("stop", &[], &[], None)]),
    ]);
    let nodes = it.nodes();
    assert_eq!(nodes.len(), 2);
    assert!(it.node_label(&nodes[0]).contains("go"));
    assert!(!it.node_label(&nodes[0]).contains("stop"));
    assert!(it.node_label(&nodes[1]).contains("stop"));
}

#[test]
fn test_relation_kind_pure_on_equal_signatures() {
    // The dominant kind depends on the two groups' signatures alone: two
    // separately built but identical declaration sets classify identically.
    let build = || {
        list_item(vec![named_struct("A", &[("b", "B")]), named_struct("B", &[])]).nodes()
    };
    let first = build();
    let second = build();
    assert_eq!(
        first[1].as_arrow(&first[0]),
        second[1].as_arrow(&second[0]),
    );
    assert_eq!(first[1].as_arrow(&first[0]), Relation::Composition);
}
