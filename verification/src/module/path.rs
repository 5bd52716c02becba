//! The module-path tag attached to each declaration.

use vstd::prelude::*;

verus! {

/// The path of the source module a declaration came from, one component per
/// directory or file stem.  The tag is carried through grouping and stored on
/// the entities; it takes no part in relationship inference.
pub struct ModulePath {
    pub path: Vec<String>,
}

impl View for ModulePath {
    type V = Seq<Seq<char>>;

    open spec fn view(&self) -> Seq<Seq<char>> {
        self.path.deep_view()
    }
}

impl Clone for ModulePath {
    fn clone(&self) -> (res: Self)
        ensures
            res@ == self@,
    {
        let path = self.path.clone();
        proof {
            assert(path.deep_view() =~~= self.path.deep_view());
        }
        ModulePath { path }
    }
}

} // verus!
