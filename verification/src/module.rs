//! A parsed module: its declarations and its module path.

pub mod path;

use vstd::prelude::*;
use crate::decl::Declaration;
use self::path::ModulePath;

verus! {

/// The declarations of one source module, in source order, with the module's
/// path.
pub struct Module {
    pub list: Vec<Declaration>,
    pub path: ModulePath,
}

/// One declaration tagged with the path of the module it came from.
pub struct ModuleItem {
    pub decl: Declaration,
    pub path: ModulePath,
}

/// The ghost form of a `ModuleItem`.
#[verifier::ext_equal]
pub ghost struct ModuleItemView {
    pub decl: crate::decl::DeclarationView,
    pub path: Seq<Seq<char>>,
}

impl View for ModuleItem {
    type V = ModuleItemView;

    open spec fn view(&self) -> ModuleItemView {
        ModuleItemView { decl: self.decl@, path: self.path@ }
    }
}

impl DeepView for ModuleItem {
    type V = ModuleItemView;

    open spec fn deep_view(&self) -> ModuleItemView {
        self.view()
    }
}

/// The ghost form of a `Module`: its declarations each tagged with its path.
pub open spec fn module_items(list: Seq<crate::decl::DeclarationView>, path: Seq<Seq<char>>) -> Seq<
    ModuleItemView,
> {
    list.map_values(|d: crate::decl::DeclarationView| ModuleItemView { decl: d, path: path })
}

impl Module {
    /// Tags each declaration of the module with the module's path, in order.
    pub fn into_items(self) -> (res: Vec<ModuleItem>)
        ensures
            res@.map_values(|it: ModuleItem| it@) == module_items(self.list.deep_view(), self.path@),
    {
        let Module { mut list, path } = self;
        let ghost origs: Seq<Declaration> = list@;
        let ghost p = path@;
        let mut res: Vec<ModuleItem> = Vec::new();
        while list.len() > 0
            invariant
                res@.len() + list@.len() == origs.len(),
                list@ =~= origs.skip(res@.len() as int),
                forall|i: int|
                    0 <= i < res@.len() ==> (#[trigger] res@[i]).decl == origs[i] && res@[i].path@
                        == p,
                path@ == p,
            decreases list@.len(),
        {
            let d = list.remove(0);
            proof {
                assert(origs.skip(res@.len() as int).remove(0) =~= origs.skip(
                    res@.len() as int + 1,
                ));
                assert(d == origs.skip(res@.len() as int)[0]);
                assert(d == origs[res@.len() as int]);
            }
            res.push(ModuleItem { decl: d, path: path.clone() });
        }
        proof {
            assert(res@.map_values(|it: ModuleItem| it@) =~= module_items(origs.map_values(
                |d: Declaration| d.deep_view(),
            ), p));
            assert(self.list.deep_view() =~= origs.map_values(|d: Declaration| d.deep_view()));
        }
        res
    }
}


/// The declarations of a row of modules, flattened in order, each tagged with
/// its module's path.
pub open spec fn modules_flat(ms: Seq<Module>) -> Seq<ModuleItemView>
    decreases ms.len(),
{
    if ms.len() == 0 {
        Seq::empty()
    } else {
        modules_flat(ms.drop_last()) + module_items(
            ms.last().list.deep_view(),
            ms.last().path@,
        )
    }
}

} // verus!
