//! The state of one declaration group: its classified entity together with
//! the method collections of its trailing implementation blocks, and the
//! five relationship predicates between two such states.

pub mod abstraction;
pub mod implem;
pub mod method;

use vstd::prelude::*;
use self::abstraction::{Abstract, AbstractView, abstract_name, attrs_of, abstract_label};
use self::abstraction::structure::{Struct, struct_of};
use self::abstraction::enumerate::{Enum, enum_of};
use self::abstraction::extend::{Trait, trait_of};
use self::implem::{Implem, ImplemView, implem_of, implem_is_realization, implem_is_association};
use self::method::{Method, MethodView, method_of, method_is_association, method_is_dependency,
    method_label};
use crate::text::{joined, join_strings};
use super::relation::Relation;
use crate::decl::{DeclKind, DeclKindView, VariantData, VariantDataView};
use crate::module::{ModuleItem, ModuleItemView};
use crate::text::has_token;

verus! {

/// One declaration group: the classified entity, the method collections of
/// its inherent implementation blocks, and the records of its trait
/// implementation blocks.
pub struct ItemState {
    pub node: Abstract,
    pub method: Vec<Method>,
    pub implem: Vec<Implem>,
}

/// The ghost form of an `ItemState`.
#[verifier::ext_equal]
pub ghost struct ItemStateView {
    pub node: AbstractView,
    pub method: Seq<MethodView>,
    pub implem: Seq<ImplemView>,
}

impl View for ItemState {
    type V = ItemStateView;

    open spec fn view(&self) -> ItemStateView {
        ItemStateView {
            node: self.node@,
            method: self.method@.map_values(|m: Method| m@),
            implem: self.implem@.map_values(|v: Implem| v@),
        }
    }
}

impl Clone for ItemState {
    fn clone(&self) -> (res: Self)
        ensures
            res@ == self@,
    {
        let method = self.method.clone();
        let implem = self.implem.clone();
        proof {
            assert(method@.map_values(|m: Method| m@) =~= self.method@.map_values(|m: Method| m@))
                by {
                assert(forall|i: int|
                    0 <= i < self.method@.len() ==> (#[trigger] method@[i])@ == self.method@[i]@);
            }
            assert(implem@.map_values(|v: Implem| v@) =~= self.implem@.map_values(|v: Implem| v@))
                by {
                assert(forall|i: int|
                    0 <= i < self.implem@.len() ==> (#[trigger] implem@[i])@ == self.implem@[i]@);
            }
        }
        let res = ItemState { node: self.node.clone(), method, implem };
        proof {
            assert(res@ =~~= self@);
        }
        res
    }
}

/// The name a state looks up relations under: its entity's name.
pub open spec fn state_name(a: ItemStateView) -> Option<Seq<char>> {
    abstract_name(a.node)
}

/// Association from `a` toward `b`: some inherent or trait-impl method of `b`
/// has an explicit return type with a token equal to `a`'s name — `b` can
/// produce an `a`.
pub open spec fn state_is_association(a: ItemStateView, b: ItemStateView) -> bool {
    match state_name(a) {
        Some(n) => (exists|i: int|
            0 <= i < b.method.len() && method_is_association(#[trigger] b.method[i], n)) || (
        exists|i: int|
            0 <= i < b.implem.len() && implem_is_association(#[trigger] b.implem[i], n)),
        None => false,
    }
}

/// Dependency from `a` toward `b`: some inherent method of `b` has an
/// argument text ending with `a`'s name — `b`'s behaviour mentions an `a` as
/// a parameter.  Trait-impl methods take no part here.
pub open spec fn state_is_dependency(a: ItemStateView, b: ItemStateView) -> bool {
    match state_name(a) {
        Some(n) => exists|i: int|
            0 <= i < b.method.len() && method_is_dependency(#[trigger] b.method[i], n),
        None => false,
    }
}

/// Aggregation from `a` toward `b`: some field or variant-payload type text
/// of `b`, split on the field delimiter set, has a token equal to
/// `*mut a` or `*const a` — `b` holds a raw pointer to an `a`.
pub open spec fn state_is_aggregation(a: ItemStateView, b: ItemStateView) -> bool {
    match state_name(a) {
        Some(n) => exists|i: int|
            0 <= i < attrs_of(b.node).len() && (has_token(
                #[trigger] attrs_of(b.node)[i],
                "*mut "@ + n,
                false,
            ) || has_token(attrs_of(b.node)[i], "*const "@ + n, false)),
        None => false,
    }
}

/// Composition from `a` toward `b`: some field or variant-payload type text
/// of `b`, split on the field delimiter set, has a token equal to `a`'s name
/// — `b` holds an `a` by value.
pub open spec fn state_is_composition(a: ItemStateView, b: ItemStateView) -> bool {
    match state_name(a) {
        Some(n) => exists|i: int|
            0 <= i < attrs_of(b.node).len() && has_token(#[trigger] attrs_of(b.node)[i], n, false),
        None => false,
    }
}

/// Realization from `a` toward `b`: some trait implementation of `b` names
/// `a`'s name as the implemented trait — `b` implements the interface `a`.
pub open spec fn state_is_realization(a: ItemStateView, b: ItemStateView) -> bool {
    match state_name(a) {
        Some(n) => exists|i: int|
            0 <= i < b.implem.len() && implem_is_realization(#[trigger] b.implem[i], n),
        None => false,
    }
}

/// Whether any of the five relationships holds from `a` toward `b`.
pub open spec fn state_is_relation(a: ItemStateView, b: ItemStateView) -> bool {
    ||| state_is_association(a, b)
    ||| state_is_dependency(a, b)
    ||| state_is_aggregation(a, b)
    ||| state_is_composition(a, b)
    ||| state_is_realization(a, b)
}

/// The single dominant relationship from `a` toward `b`: the predicates are
/// evaluated in the fixed order composition, aggregation, dependency,
/// association, realization, and the first that holds decides the kind.
pub open spec fn relation_kind(a: ItemStateView, b: ItemStateView) -> Relation {
    if state_is_composition(a, b) {
        Relation::Composition
    } else if state_is_aggregation(a, b) {
        Relation::Aggregation
    } else if state_is_dependency(a, b) {
        Relation::Dependency
    } else if state_is_association(a, b) {
        Relation::Association
    } else if state_is_realization(a, b) {
        Relation::Realization
    } else {
        Relation::Unrelated
    }
}

/// The method collections of the inherent implementation blocks among a
/// group's trailing declarations, in order.
pub open spec fn methods_of_props(props: Seq<ModuleItemView>) -> Seq<MethodView>
    decreases props.len(),
{
    if props.len() == 0 {
        Seq::empty()
    } else {
        methods_of_props(props.drop_last()) + match props.last().decl.node {
            DeclKindView::Impl(None, ms) => seq![method_of(ms, props.last().path)],
            _ => Seq::empty(),
        }
    }
}

/// The records of the trait implementation blocks among a group's trailing
/// declarations, in order.
pub open spec fn implems_of_props(props: Seq<ModuleItemView>) -> Seq<ImplemView>
    decreases props.len(),
{
    if props.len() == 0 {
        Seq::empty()
    } else {
        implems_of_props(props.drop_last()) + match props.last().decl.node {
            DeclKindView::Impl(Some(segments), ms) => seq![implem_of(segments, ms)],
            _ => Seq::empty(),
        }
    }
}

/// The classified entity of a group's primary declaration: a struct only
/// with named fields (tuple and unit structs are unrecognized), an enum or a
/// trait of any shape, and nothing for every other declaration.
pub open spec fn entity_of(primary: ModuleItemView) -> AbstractView {
    match primary.decl.node {
        DeclKindView::Trait(_, _) => AbstractView::Trait(trait_of(primary.decl)),
        DeclKindView::Struct(VariantDataView::Named(_)) => AbstractView::Struct(
            struct_of(primary.decl, primary.path),
        ),
        DeclKindView::Enum(_, _) => AbstractView::Enum(enum_of(primary.decl)),
        _ => AbstractView::Unrecognized,
    }
}

/// The state of a declaration group.  A group whose primary declaration is
/// unrecognized keeps nothing: its trailing implementation blocks are
/// permanently discarded.
pub open spec fn state_of_group(primary: ModuleItemView, props: Seq<ModuleItemView>)
    -> ItemStateView {
    if entity_of(primary) is Unrecognized {
        ItemStateView { node: AbstractView::Unrecognized, method: Seq::empty(), implem: Seq::empty() }
    } else {
        ItemStateView {
            node: entity_of(primary),
            method: methods_of_props(props),
            implem: implems_of_props(props),
        }
    }
}

impl ItemState {
    /// Builds the state of one declaration group from its primary declaration
    /// and its trailing implementation blocks.
    pub fn build(primary: &ModuleItem, props: &Vec<&ModuleItem>) -> (st: ItemState)
        ensures
            st@ == state_of_group(primary@, props.deep_view()),
    {
        let node: Abstract = match &primary.decl.node {
            DeclKind::Trait(_, _) => Abstract::Trait(Trait::build(&primary.decl)),
            DeclKind::Struct(VariantData::Named(_)) => Abstract::Struct(
                Struct::build(&primary.decl, &primary.path),
            ),
            DeclKind::Enum(_, _) => Abstract::Enum(Enum::build(&primary.decl)),
            _ => Abstract::Unrecognized,
        };
        proof {
            assert(node@ == entity_of(primary@));
        }
        match node {
            Abstract::Unrecognized => {
                let st = ItemState {
                    node: Abstract::Unrecognized,
                    method: Vec::new(),
                    implem: Vec::new(),
                };
                proof {
                    assert(st@ =~~= state_of_group(primary@, props.deep_view()));
                }
                st
            },
            node => {
                let ghost pv = props.deep_view();
                let mut method: Vec<Method> = Vec::new();
                let mut implem: Vec<Implem> = Vec::new();
                let mut i: usize = 0;
                while i < props.len()
                    invariant
                        0 <= i <= props@.len(),
                        pv == props.deep_view(),
                        method@.map_values(|m: Method| m@) =~= methods_of_props(pv.take(i as int)),
                        implem@.map_values(|v: Implem| v@) =~= implems_of_props(pv.take(i as int)),
                    decreases props@.len() - i,
                {
                    let p: &ModuleItem = props[i];
                    proof {
                        assert(pv.take(i as int + 1).drop_last() =~= pv.take(i as int));
                        assert(pv.take(i as int + 1).last() == pv[i as int]);
                        assert(pv[i as int] == props@[i as int]@);
                    }
                    match &p.decl.node {
                        DeclKind::Impl(None, ms) => {
                            proof {
                                assert(ms.deep_view() =~= ms@.map_values(
                                    |m: crate::decl::ImplMethodSig| m@,
                                ));
                                assert(pv[i as int].decl.node == DeclKindView::Impl(
                                    None,
                                    ms.deep_view(),
                                ));
                            }
                            method.push(Method::build(ms, &p.path));
                        },
                        DeclKind::Impl(Some(segments), ms) => {
                            proof {
                                assert(ms.deep_view() =~= ms@.map_values(
                                    |m: crate::decl::ImplMethodSig| m@,
                                ));
                                assert(pv[i as int].decl.node == DeclKindView::Impl(
                                    Some(segments@.map_values(|sg: crate::decl::PathSeg| sg@)),
                                    ms.deep_view(),
                                ));
                            }
                            implem.push(Implem::build(segments, ms));
                        },
                        _ => {},
                    }
                    proof {
                        assert(method@.map_values(|m: Method| m@) =~= methods_of_props(pv.take(
                            i as int + 1,
                        )));
                        assert(implem@.map_values(|v: Implem| v@) =~= implems_of_props(pv.take(
                            i as int + 1,
                        )));
                    }
                    i += 1;
                }
                proof {
                    assert(pv.take(props@.len() as int) =~= pv);
                }
                let st = ItemState { node, method, implem };
                proof {
                    assert(st@ =~~= state_of_group(primary@, pv));
                }
                st
            },
        }
    }

    /// Whether this group's primary declaration was unrecognized: such a
    /// group is excluded from every node and edge of the output.
    pub fn is_none(&self) -> (r: bool)
        ensures
            r == (self@.node is Unrecognized),
    {
        match &self.node {
            Abstract::Unrecognized => true,
            _ => false,
        }
    }

    /// The entity's name, or nothing for an unrecognized group.
    pub fn as_name(&self) -> (r: Option<&String>)
        ensures
            r.deep_view() == state_name(self@),
    {
        self.node.as_name()
    }

    /// Decides association from `self` toward `rhs`.
    pub fn is_association(&self, rhs: &ItemState) -> (r: bool)
        ensures
            r == state_is_association(self@, rhs@),
    {
        match self.node.as_name() {
            Some(name) => {
                proof {
                    assert(state_name(self@) == Some(name@));
                }
                let mut i: usize = 0;
                while i < rhs.method.len()
                    invariant
                        state_name(self@) == Some(name@),
                        0 <= i <= rhs.method@.len(),
                        forall|i2: int|
                            0 <= i2 < i ==> !method_is_association(
                                #[trigger] rhs@.method[i2],
                                name@,
                            ),
                    decreases rhs.method@.len() - i,
                {
                    if rhs.method[i].is_association(name) {
                        proof {
                            assert(state_name(self@) == Some(name@));
                            assert(rhs@.method[i as int] == rhs.method@[i as int]@);
                            assert(method_is_association(rhs@.method[i as int], name@));
                            assert(state_is_association(self@, rhs@));
                        }
                        return true;
                    }
                    assert(rhs@.method[i as int] == rhs.method@[i as int]@);
                    i += 1;
                }
                let mut j: usize = 0;
                while j < rhs.implem.len()
                    invariant
                        state_name(self@) == Some(name@),
                        0 <= j <= rhs.implem@.len(),
                        forall|i2: int|
                            0 <= i2 < rhs.method@.len() ==> !method_is_association(
                                #[trigger] rhs@.method[i2],
                                name@,
                            ),
                        forall|j2: int|
                            0 <= j2 < j ==> !implem_is_association(
                                #[trigger] rhs@.implem[j2],
                                name@,
                            ),
                    decreases rhs.implem@.len() - j,
                {
                    if rhs.implem[j].is_association(name) {
                        proof {
                            assert(state_name(self@) == Some(name@));
                            assert(rhs@.implem[j as int] == rhs.implem@[j as int]@);
                            assert(implem_is_association(rhs@.implem[j as int], name@));
                            assert(state_is_association(self@, rhs@));
                        }
                        return true;
                    }
                    assert(rhs@.implem[j as int] == rhs.implem@[j as int]@);
                    j += 1;
                }
                false
            },
            None => false,
        }
    }

    /// Decides dependency from `self` toward `rhs`.
    pub fn is_dependency(&self, rhs: &ItemState) -> (r: bool)
        ensures
            r == state_is_dependency(self@, rhs@),
    {
        match self.node.as_name() {
            Some(name) => {
                proof {
                    assert(state_name(self@) == Some(name@));
                }
                let mut i: usize = 0;
                while i < rhs.method.len()
                    invariant
                        state_name(self@) == Some(name@),
                        0 <= i <= rhs.method@.len(),
                        forall|i2: int|
                            0 <= i2 < i ==> !method_is_dependency(
                                #[trigger] rhs@.method[i2],
                                name@,
                            ),
                    decreases rhs.method@.len() - i,
                {
                    if rhs.method[i].is_dependency(name) {
                        proof {
                            assert(state_name(self@) == Some(name@));
                            assert(rhs@.method[i as int] == rhs.method@[i as int]@);
                            assert(method_is_dependency(rhs@.method[i as int], name@));
                            assert(state_is_dependency(self@, rhs@));
                        }
                        return true;
                    }
                    assert(rhs@.method[i as int] == rhs.method@[i as int]@);
                    i += 1;
                }
                false
            },
            None => false,
        }
    }

    /// Decides aggregation from `self` toward `rhs`.
    pub fn is_aggregation(&self, rhs: &ItemState) -> (r: bool)
        ensures
            r == state_is_aggregation(self@, rhs@),
    {
        match self.node.as_name() {
            Some(name) => {
                proof {
                    assert(state_name(self@) == Some(name@));
                }
                let mut ty_name_mut: String = "*mut ".to_owned();
                let mut ty_name_const: String = "*const ".to_owned();
                ty_name_mut.append(name.as_str());
                ty_name_const.append(name.as_str());
                let attrs = rhs.node.attributes();
                let ghost av = attrs_of(rhs@.node);
                let mut i: usize = 0;
                while i < attrs.len()
                    invariant
                        state_name(self@) == Some(name@),
                        0 <= i <= attrs@.len(),
                        attrs.deep_view() == av,
                        av == attrs_of(rhs@.node),
                        ty_name_mut@ == "*mut "@ + name@,
                        ty_name_const@ == "*const "@ + name@,
                        forall|i2: int|
                            0 <= i2 < i ==> !(has_token(#[trigger] av[i2], "*mut "@ + name@, false)
                                || has_token(av[i2], "*const "@ + name@, false)),
                    decreases attrs@.len() - i,
                {
                    let hit_mut = crate::text::contains_token(
                        attrs[i].as_str(),
                        ty_name_mut.as_str(),
                        false,
                    );
                    let hit_const = crate::text::contains_token(
                        attrs[i].as_str(),
                        ty_name_const.as_str(),
                        false,
                    );
                    assert(attrs@[i as int]@ == av[i as int]);
                    if hit_mut || hit_const {
                        proof {
                            assert(state_name(self@) == Some(name@));
                            assert(has_token(av[i as int], "*mut "@ + name@, false) || has_token(
                                av[i as int],
                                "*const "@ + name@,
                                false,
                            ));
                            assert(state_is_aggregation(self@, rhs@));
                        }
                        return true;
                    }
                    i += 1;
                }
                false
            },
            None => false,
        }
    }

    /// Decides composition from `self` toward `rhs`.
    pub fn is_composition(&self, rhs: &ItemState) -> (r: bool)
        ensures
            r == state_is_composition(self@, rhs@),
    {
        match self.node.as_name() {
            Some(name) => {
                proof {
                    assert(state_name(self@) == Some(name@));
                }
                let attrs = rhs.node.attributes();
                let ghost av = attrs_of(rhs@.node);
                let mut i: usize = 0;
                while i < attrs.len()
                    invariant
                        state_name(self@) == Some(name@),
                        0 <= i <= attrs@.len(),
                        attrs.deep_view() == av,
                        av == attrs_of(rhs@.node),
                        forall|i2: int| 0 <= i2 < i ==> !has_token(#[trigger] av[i2], name@, false),
                    decreases attrs@.len() - i,
                {
                    let hit = crate::text::contains_token(attrs[i].as_str(), name.as_str(), false);
                    assert(attrs@[i as int]@ == av[i as int]);
                    if hit {
                        proof {
                            assert(state_name(self@) == Some(name@));
                            assert(has_token(av[i as int], name@, false));
                            assert(state_is_composition(self@, rhs@));
                        }
                        return true;
                    }
                    i += 1;
                }
                false
            },
            None => false,
        }
    }

    /// Decides realization from `self` toward `rhs`.
    pub fn is_realization(&self, rhs: &ItemState) -> (r: bool)
        ensures
            r == state_is_realization(self@, rhs@),
    {
        match self.node.as_name() {
            Some(name) => {
                proof {
                    assert(state_name(self@) == Some(name@));
                }
                let mut i: usize = 0;
                while i < rhs.implem.len()
                    invariant
                        state_name(self@) == Some(name@),
                        0 <= i <= rhs.implem@.len(),
                        forall|i2: int|
                            0 <= i2 < i ==> !implem_is_realization(
                                #[trigger] rhs@.implem[i2],
                                name@,
                            ),
                    decreases rhs.implem@.len() - i,
                {
                    if rhs.implem[i].is_realization(name) {
                        proof {
                            assert(state_name(self@) == Some(name@));
                            assert((i as int) < rhs@.implem.len());
                            assert(rhs@.implem[i as int] == rhs.implem@[i as int]@);
                            assert(implem_is_realization(rhs@.implem[i as int], name@));
                            assert(state_is_realization(self@, rhs@));
                        }
                        return true;
                    }
                    assert(rhs@.implem[i as int] == rhs.implem@[i as int]@);
                    i += 1;
                }
                false
            },
            None => false,
        }
    }

    /// Decides whether any relationship holds from `self` toward `rhs`.
    pub fn is_relation(&self, rhs: &ItemState) -> (r: bool)
        ensures
            r == state_is_relation(self@, rhs@),
    {
        self.is_association(rhs) || self.is_dependency(rhs) || self.is_aggregation(rhs)
            || self.is_composition(rhs) || self.is_realization(rhs)
    }

    /// The dominant relationship from `self` toward `rhs`, by the fixed
    /// precedence composition, aggregation, dependency, association,
    /// realization.
    pub fn as_arrow(&self, rhs: &ItemState) -> (r: Relation)
        ensures
            r == relation_kind(self@, rhs@),
    {
        if self.is_composition(rhs) {
            Relation::Composition
        } else if self.is_aggregation(rhs) {
            Relation::Aggregation
        } else if self.is_dependency(rhs) {
            Relation::Dependency
        } else if self.is_association(rhs) {
            Relation::Association
        } else if self.is_realization(rhs) {
            Relation::Realization
        } else {
            Relation::Unrelated
        }
    }
}


/// The record label of a group state: the entity's label in braces, with a
/// further record box of method lines, one box per inherent implementation
/// block, where any such block exists.
pub open spec fn state_label(st: ItemStateView) -> Seq<char> {
    if st.method.len() == 0 {
        "{"@ + abstract_label(st.node) + "}"@
    } else {
        "{"@ + abstract_label(st.node) + "|"@ + joined(
            st.method.map_values(|m: MethodView| method_label(m)),
            "\n"@,
        ) + "}"@
    }
}

impl ItemState {
    /// The record label of this group state.
    pub fn label(&self) -> (r: String)
        requires
            !(self@.node is Unrecognized),
        ensures
            r@ == state_label(self@),
    {
        let mut out: String = "{".to_owned();
        let node_label = self.node.label();
        out.append(node_label.as_str());
        if self.method.len() == 0 {
            out.append("}");
            return out;
        }
        let ghost mv = self.method@.map_values(|m: Method| m@);
        let mut parts: Vec<String> = Vec::new();
        let mut i: usize = 0;
        while i < self.method.len()
            invariant
                mv == self.method@.map_values(|m: Method| m@),
                0 <= i <= self.method@.len(),
                parts@.len() == i,
                forall|k: int| 0 <= k < i ==> (#[trigger] parts@[k])@ == method_label(mv[k]),
            decreases self.method@.len() - i,
        {
            let line = self.method[i].label();
            proof {
                assert(self.method@[i as int]@ == mv[i as int]);
            }
            parts.push(line);
            i += 1;
        }
        proof {
            assert(parts.deep_view() =~= mv.map_values(|m: MethodView| method_label(m)));
        }
        let body = join_strings(&parts, "\n");
        out.append("|");
        out.append(body.as_str());
        out.append("}");
        out
    }
}

} // verus!
