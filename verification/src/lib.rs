//! Class-diagram relationship inference over parsed declarations.
//!
//! The library takes a stream of plain declarations (structs, enums, traits
//! and their trailing implementation blocks, as an external parser renders
//! them), groups each primary declaration with its implementation blocks,
//! classifies the pairwise relationships between the groups (association,
//! aggregation, composition, realization, dependency), and emits the
//! deduplicated labelled graph as Graphviz text.

pub mod uml;
pub mod decl;
pub mod eq;
pub mod module;
pub mod text;

pub mod prelude;

use vstd::prelude::*;
use crate::module::{Module, ModuleItem, modules_flat, module_items};
use crate::uml::{ListItem, dot_graph};
use crate::uml::item::Item;

verus! {

/// The default name of the graph/dot file.
pub const DEFAULT_NAME_DOT: &'static str = "ml.dot";

/// The default name of the image/svg file.
pub const DEFAULT_NAME_PNG: &'static str = "ml.svg";

/// The graph text of a row of parsed modules: their declarations are
/// flattened in order, grouped, classified, and emitted as one digraph.
fn items2chars(modules: Vec<Module>) -> (r: String)
    ensures
        r@ == dot_graph(modules_flat(modules@)),
{
    let ghost origs: Seq<Module> = modules@;
    let mut modules = modules;
    let mut flat: Vec<ModuleItem> = Vec::new();
    let ghost mut done: int = 0;
    while modules.len() > 0
        invariant
            0 <= done <= origs.len(),
            done + modules@.len() == origs.len(),
            modules@ =~= origs.skip(done),
            flat@.map_values(|it: ModuleItem| it@) =~= modules_flat(origs.take(done)),
        decreases modules@.len(),
    {
        let m = modules.remove(0);
        proof {
            assert(origs.skip(done).remove(0) =~= origs.skip(done + 1));
            assert(m == origs.skip(done)[0]);
            assert(m == origs[done]);
        }
        let mut items = m.into_items();
        proof {
            assert(origs.take(done + 1).drop_last() =~= origs.take(done));
            assert(origs.take(done + 1).last() == origs[done]);
        }
        let ghost pre = flat@.map_values(|it: ModuleItem| it@);
        let ghost add = items@.map_values(|it: ModuleItem| it@);
        flat.append(&mut items);
        proof {
            assert(flat@.map_values(|it: ModuleItem| it@) =~= pre + add);
            assert(flat@.map_values(|it: ModuleItem| it@) =~= modules_flat(origs.take(done + 1)));
            done = done + 1;
        }
    }
    proof {
        assert(origs.take(origs.len() as int) =~= origs);
    }
    let it = ListItem::new(Item::new(flat));
    let r = it.to_dot();
    proof {
        assert(it@.parse.list =~= modules_flat(origs));
    }
    r
}

/// The graph text of one parsed module.
pub fn rs2dot(module: Module) -> (r: String)
    ensures
        r@ == dot_graph(module_items(module.list.deep_view(), module.path@)),
{
    let ghost m = module;
    let mut modules: Vec<Module> = Vec::new();
    modules.push(module);
    let r = items2chars(modules);
    proof {
        assert(modules@ =~= seq![m]);
        assert(seq![m].drop_last() =~= Seq::<Module>::empty());
        assert(seq![m].last() == m);
        assert(modules_flat(Seq::<Module>::empty()) =~= Seq::<crate::module::ModuleItemView>::empty());
        assert(modules_flat(seq![m]) =~= module_items(m.list.deep_view(), m.path@));
    }
    r
}

/// The graph text of a repository's parsed modules, concatenated in order.
pub fn src2dot(modules: Vec<Module>) -> (r: String)
    ensures
        r@ == dot_graph(modules_flat(modules@)),
{
    items2chars(modules)
}

/// The renderer input for one module's vector image: the graph text whose
/// rasterization is the image.  Rasterization itself is the external
/// renderer's work; the caller hands it this text.
pub fn rs2svg(module: Module) -> (r: String)
    ensures
        r@ == dot_graph(module_items(module.list.deep_view(), module.path@)),
{
    rs2dot(module)
}

/// The renderer input for a repository's vector image: the graph text whose
/// rasterization is the image.  Rasterization itself is the external
/// renderer's work; the caller hands it this text.
pub fn src2svg(modules: Vec<Module>) -> (r: String)
    ensures
        r@ == dot_graph(modules_flat(modules@)),
{
    src2dot(modules)
}

} // verus!
