//! Grouping of the declaration stream into entity states.
//!
//! A cursor walks the stream: each declaration in turn becomes the primary of
//! a group, and every directly following implementation block is consumed
//! into that group.  Grouping never fails; an unrecognizable primary simply
//! yields an unrecognized state.

pub mod relation;
pub mod state;

use vstd::prelude::*;
use self::state::{ItemState, state_of_group};
use crate::module::{ModuleItem, ModuleItemView};

verus! {

/// The declaration stream under a cursor, for grouping.
pub struct Item {
    pub list: Vec<ModuleItem>,
    pub cursor: usize,
}

/// The ghost form of an `Item`.
#[verifier::ext_equal]
pub ghost struct ItemView {
    pub list: Seq<ModuleItemView>,
    pub cursor: int,
}

impl View for Item {
    type V = ItemView;

    open spec fn view(&self) -> ItemView {
        ItemView { list: self.list.deep_view(), cursor: self.cursor as int }
    }
}

/// The position where the group whose trailing blocks start at `j` ends: the
/// first position at or after `j` that holds no implementation block.
pub open spec fn group_end(s: Seq<ModuleItemView>, j: int) -> int
    decreases s.len() - j,
    when 0 <= j <= s.len()
{
    if j >= s.len() || !(s[j].decl.node is Impl) {
        j
    } else {
        group_end(s, j + 1)
    }
}

/// A group's end lies between its start and the end of the stream.
pub proof fn lemma_group_end_bounds(s: Seq<ModuleItemView>, j: int)
    requires
        0 <= j <= s.len(),
    ensures
        j <= group_end(s, j) <= s.len(),
    decreases s.len() - j,
{
    if j >= s.len() || !(s[j].decl.node is Impl) {
    } else {
        lemma_group_end_bounds(s, j + 1);
    }
}

impl Item {
    /// Wraps a declaration stream for grouping, with the cursor at its head.
    pub fn new(list: Vec<ModuleItem>) -> (r: Item)
        ensures
            r@.list == list.deep_view(),
            r@.cursor == 0,
    {
        Item { list, cursor: 0 }
    }

    /// Builds the group whose primary declaration stands at `start`: its
    /// state, and the position of the first declaration after the group.
    pub fn group_at(&self, start: usize) -> (r: (ItemState, usize))
        requires
            start < self@.list.len(),
        ensures
            r.1 == group_end(self@.list, start + 1),
            r.0@ == state_of_group(
                self@.list[start as int],
                self@.list.subrange(start + 1, group_end(self@.list, start + 1)),
            ),
    {
        let ghost s = self@.list;
        let len = self.list.len();
        let mut j: usize = start + 1;
        while j < len && self.list[j].decl.node.is_impl()
            invariant
                s == self@.list,
                len == s.len(),
                start + 1 <= j <= len,
                group_end(s, start + 1) == group_end(s, j as int),
            decreases len - j,
        {
            proof {
                assert(s[j as int] == self.list@[j as int]@);
            }
            j += 1;
        }
        proof {
            assert(j < len ==> s[j as int] == self.list@[j as int]@);
            assert(group_end(s, j as int) == j);
        }
        let mut props: Vec<&ModuleItem> = Vec::new();
        let mut k: usize = start + 1;
        while k < j
            invariant
                s == self@.list,
                len == s.len(),
                start + 1 <= k <= j <= len,
                props@.len() == k - start - 1,
                forall|t: int| 0 <= t < props@.len() ==> #[trigger] props@[t] == &self.list@[
                    start + 1 + t
                ],
            decreases j - k,
        {
            props.push(&self.list[k]);
            k += 1;
        }
        proof {
            assert(props.deep_view() =~= s.subrange(start + 1, j as int));
        }
        let st = ItemState::build(&self.list[start], &props);
        proof {
            assert(self.list@[start as int]@ == s[start as int]);
        }
        (st, j)
    }

    /// Takes the next group off the stream: its state, or nothing when the
    /// cursor stands at the end.
    pub fn next(&mut self) -> (r: Option<ItemState>)
        ensures
            final(self)@.list == old(self)@.list,
            old(self)@.cursor >= old(self)@.list.len() ==> r is None && final(self)@ == old(self)@,
            old(self)@.cursor < old(self)@.list.len() ==> {
                &&& r is Some
                &&& final(self)@.cursor == group_end(old(self)@.list, old(self)@.cursor + 1)
                &&& r.unwrap()@ == state_of_group(
                    old(self)@.list[old(self)@.cursor],
                    old(self)@.list.subrange(
                        old(self)@.cursor + 1,
                        group_end(old(self)@.list, old(self)@.cursor + 1),
                    ),
                )
            },
    {
        if self.cursor >= self.list.len() {
            return None;
        }
        let (st, end) = self.group_at(self.cursor);
        self.cursor = end;
        proof {
            lemma_group_end_bounds(old(self)@.list, old(self)@.cursor + 1);
        }
        Some(st)
    }
}

} // verus!
