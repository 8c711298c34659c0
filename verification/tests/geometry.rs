use thaw::geometry::get_follower_placement_offset;
use thaw::geometry::resolve_follower_width;
use thaw::geometry::FollowerWidth;
use thaw::geometry::Rect;
use thaw::geometry::WidthConstraint;
use thaw::placement::FollowerPlacement;

fn all_placements() -> Vec<FollowerPlacement> {
    vec![
        FollowerPlacement::Top,
        FollowerPlacement::Bottom,
        FollowerPlacement::Left,
        FollowerPlacement::Right,
        FollowerPlacement::TopStart,
        FollowerPlacement::TopEnd,
        FollowerPlacement::LeftStart,
        FollowerPlacement::LeftEnd,
        FollowerPlacement::RightStart,
        FollowerPlacement::RightEnd,
        FollowerPlacement::BottomStart,
        FollowerPlacement::BottomEnd,
    ]
}

#[test]
fn transform_origin_total_over_all_twelve() {
    for p in all_placements() {
        assert!(!p.transform_origin().is_empty());
    }
    assert_eq!(FollowerPlacement::Bottom.transform_origin(), "top center");
    assert_eq!(FollowerPlacement::BottomStart.transform_origin(), "top left");
    assert_eq!(FollowerPlacement::Top.transform_origin(), "bottom center");
    assert_eq!(FollowerPlacement::LeftEnd.transform_origin(), "bottom right");
    assert_eq!(FollowerPlacement::RightStart.transform_origin(), "top left");
}

#[test]
fn as_str_projection() {
    assert_eq!(FollowerPlacement::Top.as_str(), "top");
    assert_eq!(FollowerPlacement::BottomEnd.as_str(), "bottom-end");
    assert_eq!(FollowerPlacement::LeftStart.as_str(), "left-start");
    let mut seen: Vec<&str> = Vec::new();
    for p in all_placements() {
        let s = p.as_str();
        assert!(!seen.contains(&s));
        seen.push(s);
    }
}

#[test]
fn bottom_overflow_flips_to_top_start() {
    // Bottom placement would put the panel's bottom at 500 + 20 + 200 = 720 > 600.
    let target = Rect::new(500, 100, 50, 20);
    let content = Rect::new(0, 0, 80, 200);
    let viewport = Rect::new(0, 0, 800, 600);
    let o = get_follower_placement_offset(FollowerPlacement::BottomStart, target, content, viewport)
        .unwrap();
    assert_eq!(o.placement, FollowerPlacement::TopStart);
    assert_eq!(o.top, 300);
    assert_eq!(o.left, 100);
    assert_eq!(o.transform, "bottom left");
}

#[test]
fn fitting_placement_is_kept() {
    let target = Rect::new(500, 100, 50, 20);
    let content = Rect::new(0, 0, 80, 30);
    let viewport = Rect::new(0, 0, 800, 600);
    let o = get_follower_placement_offset(FollowerPlacement::BottomStart, target, content, viewport)
        .unwrap();
    assert_eq!(o.placement, FollowerPlacement::BottomStart);
    assert_eq!(o.top, 520);
    assert_eq!(o.left, 100);
    assert_eq!(o.transform, "top left");
}

#[test]
fn no_flip_when_fits_for_every_placement() {
    let target = Rect::new(300, 300, 50, 20);
    let content = Rect::new(0, 0, 40, 30);
    let viewport = Rect::new(0, 0, 800, 600);
    for p in all_placements() {
        let o = get_follower_placement_offset(p, target, content, viewport).unwrap();
        assert_eq!(o.placement, p);
    }
}

#[test]
fn each_edge_flips_to_its_opposite() {
    let viewport = Rect::new(0, 0, 800, 600);
    let content = Rect::new(0, 0, 100, 100);
    // Near the top edge: Top* overflows upward.
    let near_top = Rect::new(10, 300, 50, 20);
    let o = get_follower_placement_offset(FollowerPlacement::TopEnd, near_top, content, viewport)
        .unwrap();
    assert_eq!(o.placement, FollowerPlacement::BottomEnd);
    // Near the left edge: Left* overflows leftward.
    let near_left = Rect::new(300, 10, 50, 20);
    let o = get_follower_placement_offset(FollowerPlacement::LeftStart, near_left, content, viewport)
        .unwrap();
    assert_eq!(o.placement, FollowerPlacement::RightStart);
    // Near the right edge: Right overflows rightward, alignment center kept.
    let near_right = Rect::new(300, 740, 50, 20);
    let o = get_follower_placement_offset(FollowerPlacement::Right, near_right, content, viewport)
        .unwrap();
    assert_eq!(o.placement, FollowerPlacement::Left);
}

#[test]
fn alignment_arithmetic() {
    let target = Rect::new(100, 100, 50, 20);
    let content = Rect::new(0, 0, 30, 10);
    let viewport = Rect::new(0, 0, 800, 600);
    let o = get_follower_placement_offset(FollowerPlacement::Bottom, target, content, viewport)
        .unwrap();
    assert_eq!((o.top, o.left), (120, 110));
    let o = get_follower_placement_offset(FollowerPlacement::BottomEnd, target, content, viewport)
        .unwrap();
    assert_eq!((o.top, o.left), (120, 120));
    let o = get_follower_placement_offset(FollowerPlacement::Left, target, content, viewport)
        .unwrap();
    assert_eq!((o.top, o.left), (105, 70));
    let o = get_follower_placement_offset(FollowerPlacement::RightEnd, target, content, viewport)
        .unwrap();
    assert_eq!((o.top, o.left), (110, 150));
}

#[test]
fn degenerate_content_gives_none() {
    let target = Rect::new(500, 100, 50, 20);
    let viewport = Rect::new(0, 0, 800, 600);
    let r = get_follower_placement_offset(
        FollowerPlacement::BottomStart,
        target,
        Rect::new(0, 0, 0, 0),
        viewport,
    );
    assert!(r.is_none());
}

#[test]
fn degenerate_target_gives_none() {
    let content = Rect::new(0, 0, 80, 30);
    let viewport = Rect::new(0, 0, 800, 600);
    let r = get_follower_placement_offset(
        FollowerPlacement::Top,
        Rect::new(10, 10, 0, 0),
        content,
        viewport,
    );
    assert!(r.is_none());
}

#[test]
fn zero_width_alone_is_not_degenerate() {
    let target = Rect::new(500, 100, 50, 20);
    let viewport = Rect::new(0, 0, 800, 600);
    let r = get_follower_placement_offset(
        FollowerPlacement::BottomStart,
        target,
        Rect::new(0, 0, 0, 5),
        viewport,
    );
    assert!(r.is_some());
}

#[test]
fn width_resolution() {
    assert_eq!(
        resolve_follower_width(FollowerWidth::Target, 50),
        WidthConstraint::Width(50)
    );
    assert_eq!(
        resolve_follower_width(FollowerWidth::MinTarget, 50),
        WidthConstraint::MinWidth(50)
    );
    assert_eq!(
        resolve_follower_width(FollowerWidth::Px(120), 50),
        WidthConstraint::Width(120)
    );
}

#[test]
fn largest_layout_coordinates_do_not_overflow() {
    let big = 1_000_000_000_000i64;
    let target = Rect::new(big, big, big, big);
    let content = Rect::new(0, 0, big, big);
    let viewport = Rect::new(-big, -big, big, big);
    let o = get_follower_placement_offset(FollowerPlacement::BottomEnd, target, content, viewport)
        .unwrap();
    // The bottom placement overflows a viewport that ends at 0, so the edge
    // flips; end alignment is kept.
    assert_eq!(o.placement, FollowerPlacement::TopEnd);
    assert_eq!(o.top, 0);
    assert_eq!(o.left, big);
}

#[test]
fn flip_is_an_involution_preserving_alignment() {
    for p in all_placements() {
        let f = p.flip();
        assert_eq!(f.flip(), p);
        assert_eq!(f.alignment(), p.alignment());
        assert_ne!(f.edge(), p.edge());
    }
}
