//! Symbolic placements for a floating panel relative to its anchor.
//!
//! A placement combines an edge of the anchor (top, bottom, left, right)
//! with an alignment along that edge (start, center, end), giving twelve
//! symbolic values.  The bare edge names (`Top`, `Bottom`, `Left`, `Right`)
//! stand for center alignment.

use vstd::prelude::*;

verus! {

/// The twelve symbolic placements of a follower panel around its anchor.
#[derive(Clone, Copy, Debug, PartialEq, Eq, Structural)]
pub enum FollowerPlacement {
    Top,
    Bottom,
    Left,
    Right,
    TopStart,
    TopEnd,
    LeftStart,
    LeftEnd,
    RightStart,
    RightEnd,
    BottomStart,
    BottomEnd,
}

/// The anchor edge a placement attaches to.
#[derive(Clone, Copy, Debug, PartialEq, Eq, Structural)]
pub enum PlacementEdge {
    Top,
    Bottom,
    Left,
    Right,
}

/// The alignment of the panel along the chosen edge.
#[derive(Clone, Copy, Debug, PartialEq, Eq, Structural)]
pub enum PlacementAlignment {
    Start,
    Center,
    End,
}

/// The edge component of a placement.
pub open spec fn edge_of(p: FollowerPlacement) -> PlacementEdge {
    match p {
        FollowerPlacement::Top => PlacementEdge::Top,
        FollowerPlacement::TopStart => PlacementEdge::Top,
        FollowerPlacement::TopEnd => PlacementEdge::Top,
        FollowerPlacement::Bottom => PlacementEdge::Bottom,
        FollowerPlacement::BottomStart => PlacementEdge::Bottom,
        FollowerPlacement::BottomEnd => PlacementEdge::Bottom,
        FollowerPlacement::Left => PlacementEdge::Left,
        FollowerPlacement::LeftStart => PlacementEdge::Left,
        FollowerPlacement::LeftEnd => PlacementEdge::Left,
        FollowerPlacement::Right => PlacementEdge::Right,
        FollowerPlacement::RightStart => PlacementEdge::Right,
        FollowerPlacement::RightEnd => PlacementEdge::Right,
    }
}

/// The alignment component of a placement.
pub open spec fn alignment_of(p: FollowerPlacement) -> PlacementAlignment {
    match p {
        FollowerPlacement::Top => PlacementAlignment::Center,
        FollowerPlacement::Bottom => PlacementAlignment::Center,
        FollowerPlacement::Left => PlacementAlignment::Center,
        FollowerPlacement::Right => PlacementAlignment::Center,
        FollowerPlacement::TopStart => PlacementAlignment::Start,
        FollowerPlacement::BottomStart => PlacementAlignment::Start,
        FollowerPlacement::LeftStart => PlacementAlignment::Start,
        FollowerPlacement::RightStart => PlacementAlignment::Start,
        FollowerPlacement::TopEnd => PlacementAlignment::End,
        FollowerPlacement::BottomEnd => PlacementAlignment::End,
        FollowerPlacement::LeftEnd => PlacementAlignment::End,
        FollowerPlacement::RightEnd => PlacementAlignment::End,
    }
}

/// The opposite of an edge (top and bottom swap, left and right swap).
pub open spec fn opposite_edge(e: PlacementEdge) -> PlacementEdge {
    match e {
        PlacementEdge::Top => PlacementEdge::Bottom,
        PlacementEdge::Bottom => PlacementEdge::Top,
        PlacementEdge::Left => PlacementEdge::Right,
        PlacementEdge::Right => PlacementEdge::Left,
    }
}

/// The placement with the opposite edge and the same alignment.
pub open spec fn flipped(p: FollowerPlacement) -> FollowerPlacement {
    match p {
        FollowerPlacement::Top => FollowerPlacement::Bottom,
        FollowerPlacement::Bottom => FollowerPlacement::Top,
        FollowerPlacement::Left => FollowerPlacement::Right,
        FollowerPlacement::Right => FollowerPlacement::Left,
        FollowerPlacement::TopStart => FollowerPlacement::BottomStart,
        FollowerPlacement::BottomStart => FollowerPlacement::TopStart,
        FollowerPlacement::TopEnd => FollowerPlacement::BottomEnd,
        FollowerPlacement::BottomEnd => FollowerPlacement::TopEnd,
        FollowerPlacement::LeftStart => FollowerPlacement::RightStart,
        FollowerPlacement::RightStart => FollowerPlacement::LeftStart,
        FollowerPlacement::LeftEnd => FollowerPlacement::RightEnd,
        FollowerPlacement::RightEnd => FollowerPlacement::LeftEnd,
    }
}

/// Flipping exchanges the edge for its opposite and keeps the alignment.
pub proof fn lemma_flipped_preserves_alignment(p: FollowerPlacement)
    ensures
        edge_of(flipped(p)) == opposite_edge(edge_of(p)),
        alignment_of(flipped(p)) == alignment_of(p),
        flipped(flipped(p)) == p,
{
}

/// The CSS-attribute projection of a placement.
pub open spec fn as_str_spec(p: FollowerPlacement) -> Seq<char> {
    match p {
        FollowerPlacement::Top => "top"@,
        FollowerPlacement::Bottom => "bottom"@,
        FollowerPlacement::Left => "left"@,
        FollowerPlacement::Right => "right"@,
        FollowerPlacement::TopStart => "top-start"@,
        FollowerPlacement::TopEnd => "top-end"@,
        FollowerPlacement::LeftStart => "left-start"@,
        FollowerPlacement::LeftEnd => "left-end"@,
        FollowerPlacement::RightStart => "right-start"@,
        FollowerPlacement::RightEnd => "right-end"@,
        FollowerPlacement::BottomStart => "bottom-start"@,
        FollowerPlacement::BottomEnd => "bottom-end"@,
    }
}

/// The scale-in origin of the entry animation: the corner or side of the
/// panel that faces the anchor, fixed per symbolic value.
pub open spec fn transform_origin_spec(p: FollowerPlacement) -> Seq<char> {
    match p {
        FollowerPlacement::Top => "bottom center"@,
        FollowerPlacement::Bottom => "top center"@,
        FollowerPlacement::Left => "center right"@,
        FollowerPlacement::Right => "center left"@,
        FollowerPlacement::TopStart => "bottom left"@,
        FollowerPlacement::TopEnd => "bottom right"@,
        FollowerPlacement::LeftStart => "top right"@,
        FollowerPlacement::LeftEnd => "bottom right"@,
        FollowerPlacement::RightStart => "top left"@,
        FollowerPlacement::RightEnd => "bottom left"@,
        FollowerPlacement::BottomStart => "top left"@,
        FollowerPlacement::BottomEnd => "top right"@,
    }
}

/// Every placement has a nonempty transform origin: the mapping is total.
pub proof fn lemma_transform_origin_total(p: FollowerPlacement)
    ensures
        transform_origin_spec(p).len() > 0,
{
    reveal_strlit("bottom center");
    reveal_strlit("top center");
    reveal_strlit("center right");
    reveal_strlit("center left");
    reveal_strlit("bottom left");
    reveal_strlit("bottom right");
    reveal_strlit("top right");
    reveal_strlit("top left");
}

impl FollowerPlacement {
    /// The edge component, as executable code.
    pub fn edge(&self) -> (r: PlacementEdge)
        ensures
            r == edge_of(*self),
    {
        match self {
            FollowerPlacement::Top => PlacementEdge::Top,
            FollowerPlacement::TopStart => PlacementEdge::Top,
            FollowerPlacement::TopEnd => PlacementEdge::Top,
            FollowerPlacement::Bottom => PlacementEdge::Bottom,
            FollowerPlacement::BottomStart => PlacementEdge::Bottom,
            FollowerPlacement::BottomEnd => PlacementEdge::Bottom,
            FollowerPlacement::Left => PlacementEdge::Left,
            FollowerPlacement::LeftStart => PlacementEdge::Left,
            FollowerPlacement::LeftEnd => PlacementEdge::Left,
            FollowerPlacement::Right => PlacementEdge::Right,
            FollowerPlacement::RightStart => PlacementEdge::Right,
            FollowerPlacement::RightEnd => PlacementEdge::Right,
        }
    }

    /// The alignment component, as executable code.
    pub fn alignment(&self) -> (r: PlacementAlignment)
        ensures
            r == alignment_of(*self),
    {
        match self {
            FollowerPlacement::Top => PlacementAlignment::Center,
            FollowerPlacement::Bottom => PlacementAlignment::Center,
            FollowerPlacement::Left => PlacementAlignment::Center,
            FollowerPlacement::Right => PlacementAlignment::Center,
            FollowerPlacement::TopStart => PlacementAlignment::Start,
            FollowerPlacement::BottomStart => PlacementAlignment::Start,
            FollowerPlacement::LeftStart => PlacementAlignment::Start,
            FollowerPlacement::RightStart => PlacementAlignment::Start,
            FollowerPlacement::TopEnd => PlacementAlignment::End,
            FollowerPlacement::BottomEnd => PlacementAlignment::End,
            FollowerPlacement::LeftEnd => PlacementAlignment::End,
            FollowerPlacement::RightEnd => PlacementAlignment::End,
        }
    }

    /// The placement with the opposite edge and the same alignment.
    pub fn flip(&self) -> (r: FollowerPlacement)
        ensures
            r == flipped(*self),
    {
        match self {
            FollowerPlacement::Top => FollowerPlacement::Bottom,
            FollowerPlacement::Bottom => FollowerPlacement::Top,
            FollowerPlacement::Left => FollowerPlacement::Right,
            FollowerPlacement::Right => FollowerPlacement::Left,
            FollowerPlacement::TopStart => FollowerPlacement::BottomStart,
            FollowerPlacement::BottomStart => FollowerPlacement::TopStart,
            FollowerPlacement::TopEnd => FollowerPlacement::BottomEnd,
            FollowerPlacement::BottomEnd => FollowerPlacement::TopEnd,
            FollowerPlacement::LeftStart => FollowerPlacement::RightStart,
            FollowerPlacement::RightStart => FollowerPlacement::LeftStart,
            FollowerPlacement::LeftEnd => FollowerPlacement::RightEnd,
            FollowerPlacement::RightEnd => FollowerPlacement::LeftEnd,
        }
    }

    /// The CSS-attribute projection, written to the panel's placement attribute.
    pub fn as_str(&self) -> (r: &'static str)
        ensures
            r@ == as_str_spec(*self),
    {
        match self {
            FollowerPlacement::Top => "top",
            FollowerPlacement::Bottom => "bottom",
            FollowerPlacement::Left => "left",
            FollowerPlacement::Right => "right",
            FollowerPlacement::TopStart => "top-start",
            FollowerPlacement::TopEnd => "top-end",
            FollowerPlacement::LeftStart => "left-start",
            FollowerPlacement::LeftEnd => "left-end",
            FollowerPlacement::RightStart => "right-start",
            FollowerPlacement::RightEnd => "right-end",
            FollowerPlacement::BottomStart => "bottom-start",
            FollowerPlacement::BottomEnd => "bottom-end",
        }
    }

    /// The scale-in origin of the entry animation, total over all twelve values.
    pub fn transform_origin(&self) -> (r: &'static str)
        ensures
            r@ == transform_origin_spec(*self),
    {
        match self {
            FollowerPlacement::Top => "bottom center",
            FollowerPlacement::Bottom => "top center",
            FollowerPlacement::Left => "center right",
            FollowerPlacement::Right => "center left",
            FollowerPlacement::TopStart => "bottom left",
            FollowerPlacement::TopEnd => "bottom right",
            FollowerPlacement::LeftStart => "top right",
            FollowerPlacement::LeftEnd => "bottom right",
            FollowerPlacement::RightStart => "top left",
            FollowerPlacement::RightEnd => "bottom left",
            FollowerPlacement::BottomStart => "top left",
            FollowerPlacement::BottomEnd => "top right",
        }
    }
}

} // verus!
