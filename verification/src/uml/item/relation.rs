//! The relationship kinds and their rendered arrow shapes.

use vstd::prelude::*;

verus! {

/// The relationship kinds inferred between two entities, after UML 2.5,
/// without generalization.  `Unrelated` stands for the absence of a relation.
#[derive(Clone, Copy, PartialEq, Eq, Structural, Debug)]
pub enum Relation {
    Association,
    Aggregation,
    Composition,
    Realization,
    Dependency,
    Unrelated,
}

/// The arrowhead shapes the renderer understands.
#[derive(Clone, Copy, PartialEq, Eq, Structural, Debug)]
pub enum ArrowShape {
    NoArrow,
    Vee,
    OpenDiamond,
    FilledDiamond,
    OpenTriangle,
}

/// The line styles the renderer understands.
#[derive(Clone, Copy, PartialEq, Eq, Structural, Debug)]
pub enum Style {
    Solid,
    Dashed,
}

/// The arrowhead drawn for each relationship kind, after the UML 2.5 edge
/// table: an open vee for association and dependency, an open diamond for
/// aggregation, a filled diamond for composition, an open triangle for
/// realization, and no arrowhead where no relation holds.
pub open spec fn relation_style(r: Relation) -> ArrowShape {
    match r {
        Relation::Association => ArrowShape::Vee,
        Relation::Dependency => ArrowShape::Vee,
        Relation::Aggregation => ArrowShape::OpenDiamond,
        Relation::Composition => ArrowShape::FilledDiamond,
        Relation::Realization => ArrowShape::OpenTriangle,
        Relation::Unrelated => ArrowShape::NoArrow,
    }
}

impl Relation {
    /// The stylized arrowhead of this relationship kind.
    pub fn as_style(&self) -> (r: ArrowShape)
        ensures
            r == relation_style(*self),
    {
        match self {
            Relation::Association => ArrowShape::Vee,
            Relation::Dependency => ArrowShape::Vee,
            Relation::Aggregation => ArrowShape::OpenDiamond,
            Relation::Composition => ArrowShape::FilledDiamond,
            Relation::Realization => ArrowShape::OpenTriangle,
            Relation::Unrelated => ArrowShape::NoArrow,
        }
    }
}


/// The renderer's name for each arrowhead shape.
pub open spec fn arrow_text(a: ArrowShape) -> Seq<char> {
    match a {
        ArrowShape::NoArrow => "none"@,
        ArrowShape::Vee => "vee"@,
        ArrowShape::OpenDiamond => "odiamond"@,
        ArrowShape::FilledDiamond => "diamond"@,
        ArrowShape::OpenTriangle => "onormal"@,
    }
}

impl ArrowShape {
    /// The renderer's name for this arrowhead shape.
    pub fn as_text(&self) -> (r: &'static str)
        ensures
            r@ == arrow_text(*self),
    {
        match self {
            ArrowShape::NoArrow => "none",
            ArrowShape::Vee => "vee",
            ArrowShape::OpenDiamond => "odiamond",
            ArrowShape::FilledDiamond => "diamond",
            ArrowShape::OpenTriangle => "onormal",
        }
    }
}

} // verus!
