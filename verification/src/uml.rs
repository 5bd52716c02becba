//! The relationship-inference core: grouping, classification, assembly.

pub mod item;
pub mod segment;

use vstd::prelude::*;
use self::item::{Item, group_end, lemma_group_end_bounds};
use self::item::state::{ItemState, ItemStateView, state_of_group, relation_kind, state_is_relation,
    state_is_realization, state_is_dependency, state_is_association, state_is_composition,
    state_name, state_label};
use crate::text::{quoted, escape_label};
use self::item::relation::{Relation, ArrowShape, Style, relation_style, arrow_text};
use self::segment::{Segment, SegmentView, seg_same_pair};
use crate::eq::ViewEq;
use crate::module::ModuleItemView;

verus! {

/// The states of the entity groups of the stream from position `i` on, in
/// grouping order, with every unrecognized group left out.
pub open spec fn nodes_from(s: Seq<ModuleItemView>, i: int) -> Seq<ItemStateView>
    decreases s.len() - i,
    when 0 <= i <= s.len()
    via nodes_from_decreases
{
    if i >= s.len() {
        Seq::empty()
    } else {
        let st = state_of_group(s[i], s.subrange(i + 1, group_end(s, i + 1)));
        (if st.node is Unrecognized {
            Seq::<ItemStateView>::empty()
        } else {
            seq![st]
        }) + nodes_from(s, group_end(s, i + 1))
    }
}

#[via_fn]
proof fn nodes_from_decreases(s: Seq<ModuleItemView>, i: int) {
    if i < s.len() {
        lemma_group_end_bounds(s, i + 1);
    }
}

/// The node list of a declaration stream.
pub open spec fn nodes_of(s: Seq<ModuleItemView>) -> Seq<ItemStateView> {
    nodes_from(s, 0)
}

/// A group whose primary declaration is not a named-field struct, an enum or
/// a trait contributes no node: every state in the node list is an entity.
pub proof fn lemma_unrecognized_excluded(s: Seq<ModuleItemView>, i: int)
    requires
        0 <= i <= s.len(),
    ensures
        forall|k: int|
            0 <= k < nodes_from(s, i).len() ==> !((#[trigger] nodes_from(s, i)[k]).node
                is Unrecognized),
    decreases s.len() - i,
{
    if i < s.len() {
        lemma_group_end_bounds(s, i + 1);
        lemma_unrecognized_excluded(s, group_end(s, i + 1));
    }
}

/// The candidate segments of one subject `a` against the first `pre` states
/// of the node list, in order: one candidate for each state that differs from
/// `a` and stands in relation from `a`.
pub open spec fn row_segs(pre: Seq<ItemStateView>, a: ItemStateView) -> Seq<SegmentView>
    decreases pre.len(),
{
    if pre.len() == 0 {
        Seq::empty()
    } else {
        row_segs(pre.drop_last(), a) + (if a != pre.last() && state_is_relation(a, pre.last()) {
            seq![SegmentView { left: a, right: pre.last() }]
        } else {
            Seq::<SegmentView>::empty()
        })
    }
}

/// The candidate segments of the first `pre` subjects, each row against the
/// full node list, concatenated in order.
pub open spec fn all_segs(pre: Seq<ItemStateView>, full: Seq<ItemStateView>) -> Seq<SegmentView>
    decreases pre.len(),
{
    if pre.len() == 0 {
        Seq::empty()
    } else {
        all_segs(pre.drop_last(), full) + row_segs(full, pre.last())
    }
}

/// Whether some segment of `acc` connects the same unordered pair as `e`.
pub open spec fn holds_pair(acc: Seq<SegmentView>, e: SegmentView) -> bool {
    exists|k: int| 0 <= k < acc.len() && seg_same_pair(#[trigger] acc[k], e)
}

/// First-occurrence deduplication: each candidate in turn is appended to the
/// accumulator unless an earlier kept segment already connects its pair.
pub open spec fn dedup_from(segs: Seq<SegmentView>, acc: Seq<SegmentView>) -> Seq<SegmentView>
    decreases segs.len(),
{
    if segs.len() == 0 {
        acc
    } else {
        dedup_from(
            segs.skip(1),
            if holds_pair(acc, segs[0]) {
                acc
            } else {
                acc.push(segs[0])
            },
        )
    }
}

/// The deduplicated edge list of a node list.
pub open spec fn edges_of(ns: Seq<ItemStateView>) -> Seq<SegmentView> {
    dedup_from(all_segs(ns, ns), Seq::empty())
}

/// No two segments of a list connect the same unordered pair.
pub open spec fn pairwise_distinct(segs: Seq<SegmentView>) -> bool {
    forall|k1: int, k2: int|
        0 <= k1 < k2 < segs.len() ==> !seg_same_pair(#[trigger] segs[k1], #[trigger] segs[k2])
}

proof fn lemma_dedup_distinct(segs: Seq<SegmentView>, acc: Seq<SegmentView>)
    requires
        pairwise_distinct(acc),
    ensures
        pairwise_distinct(dedup_from(segs, acc)),
    decreases segs.len(),
{
    if segs.len() == 0 {
    } else {
        if holds_pair(acc, segs[0]) {
            lemma_dedup_distinct(segs.skip(1), acc);
        } else {
            assert(pairwise_distinct(acc.push(segs[0]))) by {
                assert(forall|k1: int|
                    0 <= k1 < acc.len() ==> !seg_same_pair(#[trigger] acc[k1], segs[0]));
            }
            lemma_dedup_distinct(segs.skip(1), acc.push(segs[0]));
        }
    }
}

/// The assembled edge set holds at most one edge for any unordered pair of
/// groups, whichever direction each candidate was inserted from.
pub proof fn lemma_edges_unique(ns: Seq<ItemStateView>)
    ensures
        pairwise_distinct(edges_of(ns)),
{
    lemma_dedup_distinct(all_segs(ns, ns), Seq::empty());
}

/// The arrowhead rendered at the end of a surviving edge: none when both
/// directions independently resolve to association (a mutual association is
/// drawn neutral), else the arrowhead of the left endpoint's dominant
/// relation toward the right.
pub open spec fn edge_arrow_of(e: SegmentView) -> ArrowShape {
    if relation_kind(e.left, e.right) is Association && relation_kind(e.right, e.left)
        is Association {
        ArrowShape::NoArrow
    } else {
        relation_style(relation_kind(e.left, e.right))
    }
}

/// The line style of a surviving edge: dashed exactly when its left endpoint
/// satisfies realization or dependency toward its right endpoint.
pub open spec fn edge_style_of(e: SegmentView) -> Style {
    if state_is_realization(e.left, e.right) || state_is_dependency(e.left, e.right) {
        Style::Dashed
    } else {
        Style::Solid
    }
}

/// Where composition and association both hold from `a` toward `b`, the fixed
/// precedence decides for composition: the kind is never association, and an
/// edge kept in that orientation is drawn with the filled diamond, not the
/// association vee, nor the suppressed mutual-association head.
pub proof fn lemma_composition_dominates(a: ItemStateView, b: ItemStateView)
    requires
        state_is_composition(a, b),
        state_is_association(a, b),
    ensures
        relation_kind(a, b) == Relation::Composition,
        edge_arrow_of(SegmentView { left: a, right: b }) == ArrowShape::FilledDiamond,
{
}

/// The dominant relation is a pure function of the two groups' states:
/// groups with identical signatures always yield the identical kind.
pub proof fn lemma_relation_kind_pure(a1: ItemStateView, b1: ItemStateView, a2: ItemStateView,
    b2: ItemStateView)
    requires
        a1 == a2,
        b1 == b2,
    ensures
        relation_kind(a1, b1) == relation_kind(a2, b2),
{
}


/// Whether every state of a node list is an entity.
pub open spec fn all_entities(ns: Seq<ItemStateView>) -> bool {
    forall|k: int| 0 <= k < ns.len() ==> !((#[trigger] ns[k]).node is Unrecognized)
}

/// Whether both endpoints of a segment are entities.
pub open spec fn seg_entities(e: SegmentView) -> bool {
    !(e.left.node is Unrecognized) && !(e.right.node is Unrecognized)
}

/// Whether both endpoints of every segment of a list are entities.
pub open spec fn segs_entities(es: Seq<SegmentView>) -> bool {
    forall|k: int| 0 <= k < es.len() ==> seg_entities(#[trigger] es[k])
}

proof fn lemma_row_entities(pre: Seq<ItemStateView>, a: ItemStateView)
    requires
        !(a.node is Unrecognized),
        all_entities(pre),
    ensures
        segs_entities(row_segs(pre, a)),
    decreases pre.len(),
{
    if pre.len() > 0 {
        assert(all_entities(pre.drop_last())) by {
            assert(forall|k: int|
                0 <= k < pre.drop_last().len() ==> pre.drop_last()[k] == pre[k]);
        }
        lemma_row_entities(pre.drop_last(), a);
    }
}

proof fn lemma_all_segs_entities(pre: Seq<ItemStateView>, full: Seq<ItemStateView>)
    requires
        all_entities(pre),
        all_entities(full),
    ensures
        segs_entities(all_segs(pre, full)),
    decreases pre.len(),
{
    if pre.len() > 0 {
        assert(all_entities(pre.drop_last())) by {
            assert(forall|k: int|
                0 <= k < pre.drop_last().len() ==> pre.drop_last()[k] == pre[k]);
        }
        lemma_all_segs_entities(pre.drop_last(), full);
        lemma_row_entities(full, pre.last());
    }
}

proof fn lemma_dedup_entities(segs: Seq<SegmentView>, acc: Seq<SegmentView>)
    requires
        segs_entities(segs),
        segs_entities(acc),
    ensures
        segs_entities(dedup_from(segs, acc)),
    decreases segs.len(),
{
    if segs.len() > 0 {
        assert(segs_entities(segs.skip(1))) by {
            assert(forall|k: int| 0 <= k < segs.skip(1).len() ==> segs.skip(1)[k] == segs[k + 1]);
        }
        if holds_pair(acc, segs[0]) {
            lemma_dedup_entities(segs.skip(1), acc);
        } else {
            assert(segs_entities(acc.push(segs[0])));
            lemma_dedup_entities(segs.skip(1), acc.push(segs[0]));
        }
    }
}

/// Both endpoints of every assembled edge are entities: an unrecognized group
/// stands in no edge.
pub proof fn lemma_edges_entities(ns: Seq<ItemStateView>)
    requires
        all_entities(ns),
    ensures
        segs_entities(edges_of(ns)),
{
    lemma_all_segs_entities(ns, ns);
    lemma_dedup_entities(all_segs(ns, ns), Seq::empty());
}

/// The node identifier of an entity state: its name behind a fixed prefix.
pub open spec fn node_id_of(st: ItemStateView) -> Seq<char> {
    "nd"@ + state_name(st).unwrap()
}

/// One node statement of the graph text.
pub open spec fn node_line(st: ItemStateView) -> Seq<char> {
    "    "@ + node_id_of(st) + "[label=\""@ + quoted(state_label(st))
        + "\"][shape=\"record\"];\n"@
}

/// The node statements of a node list, in order.
pub open spec fn node_lines(ns: Seq<ItemStateView>) -> Seq<char>
    decreases ns.len(),
{
    if ns.len() == 0 {
        Seq::empty()
    } else {
        node_lines(ns.drop_last()) + node_line(ns.last())
    }
}

/// One edge statement of the graph text: source and target identifiers, an
/// empty label, the dashed style where the edge carries one, and the
/// arrowhead.
pub open spec fn edge_line(e: SegmentView) -> Seq<char> {
    "    "@ + node_id_of(e.left) + " -> "@ + node_id_of(e.right) + "[label=\"\"]"@ + (
    if edge_style_of(e) is Dashed {
        "[style=\"dashed\"]"@
    } else {
        Seq::<char>::empty()
    }) + "[arrowhead=\""@ + arrow_text(edge_arrow_of(e)) + "\"];\n"@
}

/// The edge statements of an edge list, in order.
pub open spec fn edge_lines(es: Seq<SegmentView>) -> Seq<char>
    decreases es.len(),
{
    if es.len() == 0 {
        Seq::empty()
    } else {
        edge_lines(es.drop_last()) + edge_line(es.last())
    }
}

/// The whole graph text of a declaration stream: the digraph header, the node
/// statements, the edge statements, and the closing brace.
pub open spec fn dot_graph(s: Seq<ModuleItemView>) -> Seq<char> {
    "digraph ml {\n"@ + node_lines(nodes_of(s)) + edge_lines(edges_of(nodes_of(s))) + "}\n"@
}

/// The grouped declaration stream, ready to yield its node and edge lists.
pub struct ListItem {
    pub parse: Item,
}

/// The ghost form of a `ListItem`.
#[verifier::ext_equal]
pub ghost struct ListItemView {
    pub parse: super::uml::item::ItemView,
}

impl View for ListItem {
    type V = ListItemView;

    open spec fn view(&self) -> ListItemView {
        ListItemView { parse: self.parse@ }
    }
}

impl ListItem {
    /// Wraps a grouping cursor for graph assembly.
    pub fn new(parse: Item) -> (r: ListItem)
        ensures
            r@.parse == parse@,
    {
        ListItem { parse }
    }

    /// The next entity state off the stream, skipping every unrecognized
    /// group, or nothing when only unrecognized groups remain.
    pub fn next(&mut self) -> (r: Option<ItemState>)
        requires
            old(self)@.parse.cursor <= old(self)@.parse.list.len(),
        ensures
            final(self)@.parse.list == old(self)@.parse.list,
            final(self)@.parse.cursor <= final(self)@.parse.list.len(),
            ({
                let pending = nodes_from(old(self)@.parse.list, old(self)@.parse.cursor);
                match r {
                    Some(st) => pending.len() > 0 && st@ == pending[0] && nodes_from(
                        old(self)@.parse.list,
                        final(self)@.parse.cursor,
                    ) =~= pending.skip(1),
                    None => pending.len() == 0,
                }
            }),
    {
        let ghost s = self@.parse.list;
        let ghost c0 = self@.parse.cursor;
        while self.parse.cursor < self.parse.list.len()
            invariant
                self@.parse.list == s,
                s == old(self)@.parse.list,
                self@.parse.cursor <= s.len(),
                c0 == old(self)@.parse.cursor,
                0 <= c0 <= s.len(),
                nodes_from(s, self@.parse.cursor) =~= nodes_from(s, c0),
            decreases s.len() - self@.parse.cursor,
        {
            let c = self.parse.cursor;
            let (st, end) = self.parse.group_at(c);
            proof {
                lemma_group_end_bounds(s, c + 1);
            }
            self.parse.cursor = end;
            if !st.is_none() {
                proof {
                    assert(nodes_from(s, c as int) =~= seq![st@] + nodes_from(s, end as int));
                }
                return Some(st);
            }
            proof {
                assert(nodes_from(s, c as int) =~= nodes_from(s, end as int));
            }
        }
        None
    }

    /// The node list: the state of every entity group of the stream, in
    /// grouping order, whatever the cursor's position.
    pub fn nodes(&self) -> (r: Vec<ItemState>)
        ensures
            r@.map_values(|st: ItemState| st@) == nodes_of(self@.parse.list),
    {
        let ghost s = self@.parse.list;
        let mut acc: Vec<ItemState> = Vec::new();
        let mut c: usize = 0;
        while c < self.parse.list.len()
            invariant
                s == self@.parse.list,
                0 <= c <= s.len(),
                acc@.map_values(|st: ItemState| st@) + nodes_from(s, c as int) =~= nodes_of(s),
            decreases s.len() - c,
        {
            let (st, end) = self.parse.group_at(c);
            proof {
                lemma_group_end_bounds(s, c + 1);
            }
            if !st.is_none() {
                acc.push(st);
                proof {
                    assert(nodes_from(s, c as int) =~= seq![st@] + nodes_from(
                        s,
                        group_end(s, c + 1),
                    ));
                    assert(acc@.map_values(|x: ItemState| x@) =~= acc@.map_values(
                        |x: ItemState| x@,
                    ).take(acc@.len() - 1).push(st@));
                    assert(acc@.map_values(|x: ItemState| x@) + nodes_from(s, group_end(s, c + 1))
                        =~= nodes_of(s));
                }
            } else {
                proof {
                    assert(nodes_from(s, c as int) =~= nodes_from(s, group_end(s, c + 1)));
                }
            }
            c = end;
        }
        proof {
            assert(acc@.map_values(|st: ItemState| st@) =~= nodes_of(s));
        }
        acc
    }

    /// Whether some segment of `out` connects the same pair as `seg`.
    fn pair_seen(out: &Vec<Segment>, seg: &Segment) -> (r: bool)
        ensures
            r == holds_pair(out@.map_values(|e: Segment| e@), seg@),
    {
        let mut k: usize = 0;
        while k < out.len()
            invariant
                0 <= k <= out@.len(),
                forall|k2: int| 0 <= k2 < k ==> !seg_same_pair((#[trigger] out@[k2])@, seg@),
            decreases out@.len() - k,
        {
            if out[k].same_pair(seg) {
                assert(out@.map_values(|e: Segment| e@)[k as int] == out@[k as int]@);
                return true;
            }
            k += 1;
        }
        proof {
            let m = out@.map_values(|e: Segment| e@);
            assert forall|k2: int| 0 <= k2 < m.len() implies !seg_same_pair(
                #[trigger] m[k2],
                seg@,
            ) by {
                assert(m[k2] == out@[k2]@);
            }
        }
        false
    }

    /// The deduplicated edge list: for every ordered pair of distinct node
    /// states in relation, one candidate, collapsed so that each unordered
    /// pair keeps only its first-inserted orientation.
    pub fn edges(&self) -> (r: Vec<Segment>)
        ensures
            r@.map_values(|e: Segment| e@) == edges_of(nodes_of(self@.parse.list)),
    {
        let nodes = self.nodes();
        let ghost nsv = nodes@.map_values(|st: ItemState| st@);
        let n = nodes.len();
        let mut cands: Vec<Segment> = Vec::new();
        let mut i: usize = 0;
        while i < n
            invariant
                nsv == nodes@.map_values(|st: ItemState| st@),
                n == nodes@.len(),
                0 <= i <= n,
                cands@.map_values(|e: Segment| e@) =~= all_segs(nsv.take(i as int), nsv),
            decreases n - i,
        {
            let mut j: usize = 0;
            while j < n
                invariant
                    nsv == nodes@.map_values(|st: ItemState| st@),
                    n == nodes@.len(),
                    0 <= i < n,
                    0 <= j <= n,
                    cands@.map_values(|e: Segment| e@) =~= all_segs(nsv.take(i as int), nsv)
                        + row_segs(nsv.take(j as int), nsv[i as int]),
                decreases n - j,
            {
                proof {
                    assert(nsv.take(j as int + 1).drop_last() =~= nsv.take(j as int));
                    assert(nsv[i as int] == nodes@[i as int]@);
                    assert(nsv[j as int] == nodes@[j as int]@);
                }
                let ghost pre = cands@.map_values(|e: Segment| e@);
                if !nodes[i].same_as(&nodes[j]) && nodes[i].is_relation(&nodes[j]) {
                    let seg = Segment { left: nodes[i].clone(), right: nodes[j].clone() };
                    proof {
                        assert(seg@ =~~= SegmentView { left: nsv[i as int], right: nsv[j as int] });
                    }
                    cands.push(seg);
                    proof {
                        assert(cands@.map_values(|e: Segment| e@) =~= pre.push(
                            SegmentView { left: nsv[i as int], right: nsv[j as int] },
                        ));
                    }
                }
                proof {
                    assert(nsv.take(j as int + 1).last() == nsv[j as int]);
                    assert(cands@.map_values(|e: Segment| e@) =~= all_segs(nsv.take(i as int), nsv)
                        + row_segs(nsv.take(j as int + 1), nsv[i as int]));
                }
                j += 1;
            }
            proof {
                assert(nsv.take(i as int + 1).drop_last() =~= nsv.take(i as int));
                assert(nsv.take(n as int) =~= nsv);
                assert(row_segs(nsv, nsv[i as int]) == row_segs(
                    nsv.take(n as int),
                    nsv.take(i as int + 1).last(),
                ));
                assert(cands@.map_values(|e: Segment| e@) =~= all_segs(
                    nsv.take(i as int + 1),
                    nsv,
                ));
            }
            i += 1;
        }
        proof {
            assert(nsv.take(n as int) =~= nsv);
        }
        let ghost candsv = cands@.map_values(|e: Segment| e@);
        let mut out: Vec<Segment> = Vec::new();
        proof {
            assert(candsv.skip(0) =~= candsv);
            assert(out@.map_values(|e: Segment| e@) =~= Seq::<SegmentView>::empty());
        }
        let mut k: usize = 0;
        while k < cands.len()
            invariant
                candsv == cands@.map_values(|e: Segment| e@),
                0 <= k <= cands@.len(),
                dedup_from(candsv.skip(k as int), out@.map_values(|e: Segment| e@)) == edges_of(
                    nsv,
                ),
            decreases cands@.len() - k,
        {
            let ghost mbefore = out@.map_values(|e: Segment| e@);
            proof {
                assert(candsv.skip(k as int)[0] == candsv[k as int]);
                assert(candsv.skip(k as int).skip(1) =~= candsv.skip(k as int + 1));
                assert(candsv[k as int] == cands@[k as int]@);
            }
            let seen = Self::pair_seen(&out, &cands[k]);
            if !seen {
                let seg = Segment {
                    left: cands[k].left.clone(),
                    right: cands[k].right.clone(),
                };
                proof {
                    assert(seg@ =~~= candsv[k as int]);
                }
                out.push(seg);
                proof {
                    assert(out@.map_values(|e: Segment| e@) =~= mbefore.push(candsv[k as int]));
                }
            }
            proof {
                let mafter = out@.map_values(|e: Segment| e@);
                assert(dedup_from(candsv.skip(k as int), mbefore) == dedup_from(
                    candsv.skip(k as int + 1),
                    mafter,
                ));
            }
            k += 1;
        }
        proof {
            assert(candsv.skip(cands@.len() as int) =~= Seq::<SegmentView>::empty());
        }
        out
    }

    /// The rendered source of a segment: its left endpoint.
    pub fn source(&self, seg: &Segment) -> (r: ItemState)
        ensures
            r@ == seg@.left,
    {
        seg.left.clone()
    }

    /// The rendered target of a segment: its right endpoint.
    pub fn target(&self, seg: &Segment) -> (r: ItemState)
        ensures
            r@ == seg@.right,
    {
        seg.right.clone()
    }

    /// The arrowhead drawn at the end of a segment, with the mutual
    /// association suppressed to no arrowhead.
    pub fn edge_end_arrow(&self, seg: &Segment) -> (r: ArrowShape)
        ensures
            r == edge_arrow_of(seg@),
    {
        let forward = seg.left.as_arrow(&seg.right);
        let backward = seg.right.as_arrow(&seg.left);
        match (forward, backward) {
            (Relation::Association, Relation::Association) => ArrowShape::NoArrow,
            (edge_left, _) => edge_left.as_style(),
        }
    }

    /// The line style of a segment: dashed for realization or dependency of
    /// the left endpoint toward the right, solid otherwise.
    pub fn edge_style(&self, seg: &Segment) -> (r: Style)
        ensures
            r == edge_style_of(seg@),
    {
        if seg.left.is_realization(&seg.right) || seg.left.is_dependency(&seg.right) {
            Style::Dashed
        } else {
            Style::Solid
        }
    }

    /// The graph identifier.
    pub fn graph_id(&self) -> (r: &'static str)
        ensures
            r@ == "ml"@,
    {
        "ml"
    }

    /// The node identifier of an entity state.
    pub fn node_id(&self, state: &ItemState) -> (r: String)
        requires
            !(state@.node is Unrecognized),
        ensures
            r@ == node_id_of(state@),
    {
        let mut out: String = "nd".to_owned();
        match state.as_name() {
            Some(name) => {
                out.append(name.as_str());
                out
            },
            None => {
                proof {
                    assert(false);
                }
                vstd::pervasive::unreached()
            },
        }
    }

    /// The shape every node is drawn with.
    pub fn node_shape(&self, _node: &ItemState) -> (r: &'static str)
        ensures
            r@ == "record"@,
    {
        "record"
    }

    /// The record label of an entity state.
    pub fn node_label(&self, state: &ItemState) -> (r: String)
        requires
            !(state@.node is Unrecognized),
        ensures
            r@ == state_label(state@),
    {
        state.label()
    }

    /// The whole graph text of the stream: one node statement per entity
    /// group and one edge statement per deduplicated relation.
    pub fn to_dot(&self) -> (r: String)
        ensures
            r@ == dot_graph(self@.parse.list),
    {
        let ghost s = self@.parse.list;
        let nodes = self.nodes();
        let ghost nsv = nodes@.map_values(|st: ItemState| st@);
        proof {
            lemma_unrecognized_excluded(s, 0);
            assert(all_entities(nsv));
        }
        let mut out: String = "digraph ml {\n".to_owned();
        let mut i: usize = 0;
        while i < nodes.len()
            invariant
                nsv == nodes@.map_values(|st: ItemState| st@),
                nsv == nodes_of(s),
                all_entities(nsv),
                0 <= i <= nodes@.len(),
                out@ =~= "digraph ml {\n"@ + node_lines(nsv.take(i as int)),
            decreases nodes@.len() - i,
        {
            proof {
                assert(nsv[i as int] == nodes@[i as int]@);
            }
            let id = self.node_id(&nodes[i]);
            let label = self.node_label(&nodes[i]);
            let q = escape_label(label.as_str());
            out.append("    ");
            out.append(id.as_str());
            out.append("[label=\"");
            out.append(q.as_str());
            out.append("\"][shape=\"record\"];\n");
            proof {
                assert(nsv.take(i as int + 1).drop_last() =~= nsv.take(i as int));
                assert(nsv.take(i as int + 1).last() == nsv[i as int]);
                assert(out@ =~= "digraph ml {\n"@ + node_lines(nsv.take(i as int + 1)));
            }
            i += 1;
        }
        proof {
            assert(nsv.take(nodes@.len() as int) =~= nsv);
        }
        let edges = self.edges();
        let ghost esv = edges@.map_values(|e: Segment| e@);
        proof {
            lemma_edges_entities(nsv);
        }
        let mut k: usize = 0;
        while k < edges.len()
            invariant
                esv == edges@.map_values(|e: Segment| e@),
                esv == edges_of(nsv),
                nsv == nodes_of(s),
                segs_entities(esv),
                0 <= k <= edges@.len(),
                out@ =~= "digraph ml {\n"@ + node_lines(nsv) + edge_lines(esv.take(k as int)),
            decreases edges@.len() - k,
        {
            proof {
                assert(esv[k as int] == edges@[k as int]@);
                assert(seg_entities(esv[k as int]));
            }
            let e = &edges[k];
            let src = self.node_id(&e.left);
            let tgt = self.node_id(&e.right);
            out.append("    ");
            out.append(src.as_str());
            out.append(" -> ");
            out.append(tgt.as_str());
            out.append("[label=\"\"]");
            let style = self.edge_style(e);
            match style {
                Style::Dashed => out.append("[style=\"dashed\"]"),
                Style::Solid => {},
            }
            let arrow = self.edge_end_arrow(e);
            out.append("[arrowhead=\"");
            out.append(arrow.as_text());
            out.append("\"];\n");
            proof {
                assert(esv.take(k as int + 1).drop_last() =~= esv.take(k as int));
                assert(esv.take(k as int + 1).last() == esv[k as int]);
                assert(out@ =~= "digraph ml {\n"@ + node_lines(nsv) + edge_lines(
                    esv.take(k as int + 1),
                ));
            }
            k += 1;
        }
        proof {
            assert(esv.take(edges@.len() as int) =~= esv);
        }
        out.append("}\n");
        out
    }
}

} // verus!
