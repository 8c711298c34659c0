//! Pure placement geometry: from an anchor rectangle, a panel rectangle and a
//! viewport to concrete screen coordinates plus a resolved placement.
//!
//! The naive position aligns the panel against the requested edge and
//! alignment of the anchor.  If that position would push the panel outside
//! the viewport on the primary axis (vertical for top or bottom, horizontal
//! for left or right), the edge flips to its opposite once — alignment kept,
//! no further search.  Alignment along the cross axis never triggers a flip
//! and is left unclamped: overflow there is the caller's concern.

use vstd::prelude::*;

use crate::placement::FollowerPlacement;
use crate::placement::PlacementAlignment;
use crate::placement::PlacementEdge;
use crate::placement::alignment_of;
use crate::placement::edge_of;
use crate::placement::flipped;
use crate::placement::opposite_edge;
use crate::placement::transform_origin_spec;

verus! {

/// Coordinates and extents live well inside this bound, so sums of a few of
/// them stay far from the edges of `i64`.
pub const MAX_RECT_UNIT: i64 = 1_000_000_000_000;

/// A screen-space axis-aligned box: an immutable snapshot, recomputed on
/// demand and never cached across renders.
#[derive(Clone, Copy, Debug, PartialEq, Eq, Structural)]
pub struct Rect {
    pub top: i64,
    pub left: i64,
    pub width: i64,
    pub height: i64,
}

impl Rect {
    /// A rectangle a real layout can produce: nonnegative extents, and every
    /// field small enough that placement arithmetic cannot overflow.
    pub open spec fn wf(self) -> bool {
        &&& -MAX_RECT_UNIT <= self.top <= MAX_RECT_UNIT
        &&& -MAX_RECT_UNIT <= self.left <= MAX_RECT_UNIT
        &&& 0 <= self.width <= MAX_RECT_UNIT
        &&& 0 <= self.height <= MAX_RECT_UNIT
    }

    /// The vertical coordinate of the bottom edge.
    pub open spec fn bottom(self) -> int {
        self.top + self.height
    }

    /// The horizontal coordinate of the right edge.
    pub open spec fn right(self) -> int {
        self.left + self.width
    }

    /// A rectangle with no extent at all, the mark of an element the
    /// renderer has not laid out yet (or has detached).
    pub open spec fn degenerate(self) -> bool {
        self.width == 0 && self.height == 0
    }

    pub fn new(top: i64, left: i64, width: i64, height: i64) -> (r: Rect)
        ensures
            r == (Rect { top, left, width, height }),
    {
        Rect { top, left, width, height }
    }

    /// Whether this snapshot is degenerate, as executable code.
    pub fn is_degenerate(&self) -> (r: bool)
        ensures
            r == self.degenerate(),
    {
        self.width == 0 && self.height == 0
    }
}

/// The vertical screen coordinate of the panel's top edge under a placement,
/// before any overflow fallback.
pub open spec fn naive_top(p: FollowerPlacement, target: Rect, content: Rect) -> int {
    match edge_of(p) {
        PlacementEdge::Top => target.top - content.height,
        PlacementEdge::Bottom => target.bottom(),
        _ => match alignment_of(p) {
            PlacementAlignment::Start => target.top as int,
            PlacementAlignment::Center => target.top + target.height / 2 - content.height / 2,
            PlacementAlignment::End => target.bottom() - content.height,
        },
    }
}

/// The horizontal screen coordinate of the panel's left edge under a
/// placement, before any overflow fallback.
pub open spec fn naive_left(p: FollowerPlacement, target: Rect, content: Rect) -> int {
    match edge_of(p) {
        PlacementEdge::Left => target.left - content.width,
        PlacementEdge::Right => target.right(),
        _ => match alignment_of(p) {
            PlacementAlignment::Start => target.left as int,
            PlacementAlignment::Center => target.left + target.width / 2 - content.width / 2,
            PlacementAlignment::End => target.right() - content.width,
        },
    }
}

/// Whether the naive position overflows the viewport on the primary axis —
/// the axis perpendicular to the placement's edge.  Cross-axis overflow never
/// counts.
pub open spec fn overflows_primary(
    p: FollowerPlacement,
    target: Rect,
    content: Rect,
    viewport: Rect,
) -> bool {
    match edge_of(p) {
        PlacementEdge::Top => target.top - content.height < viewport.top,
        PlacementEdge::Bottom => target.bottom() + content.height > viewport.bottom(),
        PlacementEdge::Left => target.left - content.width < viewport.left,
        PlacementEdge::Right => target.right() + content.width > viewport.right(),
    }
}

/// The placement actually used: the request itself when its naive position
/// fits on the primary axis, else the request with its edge flipped once.
pub open spec fn resolved_placement(
    p: FollowerPlacement,
    target: Rect,
    content: Rect,
    viewport: Rect,
) -> FollowerPlacement {
    if overflows_primary(p, target, content, viewport) {
        flipped(p)
    } else {
        p
    }
}

/// When the naive placement fits, the resolved placement is the request.
pub proof fn lemma_no_flip_when_fits(
    p: FollowerPlacement,
    target: Rect,
    content: Rect,
    viewport: Rect,
)
    requires
        !overflows_primary(p, target, content, viewport),
    ensures
        resolved_placement(p, target, content, viewport) == p,
{
}

/// When the naive placement overflows the primary axis, the resolved
/// placement has the opposite edge and the same alignment as the request.
pub proof fn lemma_flip_on_overflow(
    p: FollowerPlacement,
    target: Rect,
    content: Rect,
    viewport: Rect,
)
    requires
        overflows_primary(p, target, content, viewport),
    ensures
        resolved_placement(p, target, content, viewport) == flipped(p),
        edge_of(resolved_placement(p, target, content, viewport)) == opposite_edge(edge_of(p)),
        alignment_of(resolved_placement(p, target, content, viewport)) == alignment_of(p),
{
    crate::placement::lemma_flipped_preserves_alignment(p);
}

/// A naive bottom-start placement that overflows the viewport's bottom edge
/// resolves to top-start: the edge flips and the start alignment survives.
pub proof fn lemma_bottom_start_overflow_resolves_top_start(
    target: Rect,
    content: Rect,
    viewport: Rect,
)
    requires
        target.bottom() + content.height > viewport.bottom(),
    ensures
        resolved_placement(FollowerPlacement::BottomStart, target, content, viewport)
            == FollowerPlacement::TopStart,
{
}

/// The computed visual offset of a panel and the placement actually used.
#[derive(Clone, Debug)]
pub struct FollowerPlacementOffset {
    pub top: i64,
    pub left: i64,
    pub transform: String,
    pub placement: FollowerPlacement,
}

/// Screen coordinates plus resolved placement for a panel, or `None` while
/// the anchor or the panel has no extent yet ("cannot place yet": the caller
/// skips the sync cycle and writes no style).
pub fn get_follower_placement_offset(
    placement: FollowerPlacement,
    target: Rect,
    content: Rect,
    viewport: Rect,
) -> (r: Option<FollowerPlacementOffset>)
    requires
        target.wf(),
        content.wf(),
        viewport.wf(),
    ensures
        r is Some <==> !target.degenerate() && !content.degenerate(),
        r matches Some(o) ==> {
            &&& o.placement == resolved_placement(placement, target, content, viewport)
            &&& o.top == naive_top(o.placement, target, content)
            &&& o.left == naive_left(o.placement, target, content)
            &&& o.transform@ == transform_origin_spec(o.placement)
        },
{
    if target.is_degenerate() || content.is_degenerate() {
        return None;
    }
    let resolved = if overflows(placement, target, content, viewport) {
        placement.flip()
    } else {
        placement
    };
    let top = position_top(resolved, target, content);
    let left = position_left(resolved, target, content);
    let transform = resolved.transform_origin().to_owned();
    Some(FollowerPlacementOffset { top, left, transform, placement: resolved })
}

/// The primary-axis overflow test, as executable code.
pub fn overflows(
    p: FollowerPlacement,
    target: Rect,
    content: Rect,
    viewport: Rect,
) -> (r: bool)
    requires
        target.wf(),
        content.wf(),
        viewport.wf(),
    ensures
        r == overflows_primary(p, target, content, viewport),
{
    match p.edge() {
        PlacementEdge::Top => target.top - content.height < viewport.top,
        PlacementEdge::Bottom => target.top + target.height + content.height
            > viewport.top + viewport.height,
        PlacementEdge::Left => target.left - content.width < viewport.left,
        PlacementEdge::Right => target.left + target.width + content.width
            > viewport.left + viewport.width,
    }
}

/// The naive top coordinate, as executable code.
pub fn position_top(p: FollowerPlacement, target: Rect, content: Rect) -> (r: i64)
    requires
        target.wf(),
        content.wf(),
    ensures
        r == naive_top(p, target, content),
{
    match p.edge() {
        PlacementEdge::Top => target.top - content.height,
        PlacementEdge::Bottom => target.top + target.height,
        _ => match p.alignment() {
            PlacementAlignment::Start => target.top,
            PlacementAlignment::Center => target.top + target.height / 2 - content.height / 2,
            PlacementAlignment::End => target.top + target.height - content.height,
        },
    }
}

/// The naive left coordinate, as executable code.
pub fn position_left(p: FollowerPlacement, target: Rect, content: Rect) -> (r: i64)
    requires
        target.wf(),
        content.wf(),
    ensures
        r == naive_left(p, target, content),
{
    match p.edge() {
        PlacementEdge::Left => target.left - content.width,
        PlacementEdge::Right => target.left + target.width,
        _ => match p.alignment() {
            PlacementAlignment::Start => target.left,
            PlacementAlignment::Center => target.left + target.width / 2 - content.width / 2,
            PlacementAlignment::End => target.left + target.width - content.width,
        },
    }
}

/// How the panel's width follows the anchor's width.
#[derive(Clone, Copy, Debug, PartialEq, Eq, Structural)]
pub enum FollowerWidth {
    /// The panel width is the same as the anchor's width.
    Target,
    /// The panel's minimum width is the same as the anchor's width.
    MinTarget,
    /// A fixed width in pixels.
    Px(u32),
}

/// A resolved width constraint for the panel's style.
#[derive(Clone, Copy, Debug, PartialEq, Eq, Structural)]
pub enum WidthConstraint {
    Width(i64),
    MinWidth(i64),
}

/// What a width configuration means against a given anchor width.
pub open spec fn resolved_width(w: FollowerWidth, target_width: i64) -> WidthConstraint {
    match w {
        FollowerWidth::Target => WidthConstraint::Width(target_width),
        FollowerWidth::MinTarget => WidthConstraint::MinWidth(target_width),
        FollowerWidth::Px(px) => WidthConstraint::Width(px as i64),
    }
}

/// Resolve a width configuration.  Width never affects placement fallback:
/// `resolved_placement` does not read it.
pub fn resolve_follower_width(w: FollowerWidth, target_width: i64) -> (r: WidthConstraint)
    ensures
        r == resolved_width(w, target_width),
{
    match w {
        FollowerWidth::Target => WidthConstraint::Width(target_width),
        FollowerWidth::MinTarget => WidthConstraint::MinWidth(target_width),
        FollowerWidth::Px(px) => WidthConstraint::Width(px as i64),
    }
}

} // verus!

