use thaw::geometry::FollowerWidth;
use thaw::geometry::Rect;
use thaw::geometry::WidthConstraint;
use thaw::listener::ListenerRegistry;
use thaw::placement::FollowerPlacement;
use thaw::scroll_chain::DomTree;
use thaw::sync::Binder;
use thaw::sync::Follower;
use thaw::sync::SyncState;

fn small_tree() -> (DomTree, usize) {
    let mut dom = DomTree::new();
    let n0 = dom.push_node(None, true);
    let n1 = dom.push_node(Some(n0), true);
    let anchor = dom.push_node(Some(n1), false);
    (dom, anchor)
}

fn rects() -> (Rect, Rect, Rect) {
    (
        Rect::new(500, 100, 50, 20),
        Rect::new(0, 0, 80, 30),
        Rect::new(0, 0, 800, 600),
    )
}

#[test]
fn show_frame_track_hide_lifecycle() {
    let (dom, anchor) = small_tree();
    let (target, content, viewport) = rects();
    let mut reg = ListenerRegistry::new();
    let mut b = Binder::new(Follower { placement: FollowerPlacement::BottomStart, width: None });
    assert_eq!(b.state, SyncState::Hidden);

    let frame = b
        .on_show(&mut reg, &dom, Some(anchor), true, 1)
        .expect("a deferred pass is scheduled");
    assert_eq!(b.state, SyncState::PendingFirstLayout);
    assert_eq!(reg.live_listeners(), 3); // two scroll ancestors + resize
    assert!(b.teleport.built && b.teleport.present);

    let wrote = b.on_frame(frame, target, content, viewport);
    assert!(wrote);
    assert_eq!(b.state, SyncState::Tracking);
    let applied = b.applied.as_ref().unwrap();
    assert_eq!(applied.placement, FollowerPlacement::BottomStart);
    assert_eq!((applied.top, applied.left), (520, 100));

    // A scroll event recomputes synchronously.
    let moved = Rect::new(400, 100, 50, 20);
    assert!(b.sync_position(moved, content, viewport));
    assert_eq!(b.applied.as_ref().unwrap().top, 420);

    b.on_hide(&mut reg);
    assert_eq!(b.state, SyncState::Hidden);
    assert_eq!(reg.live_listeners(), 0);
    assert!(b.teleport.built && !b.teleport.present);
    // The last style is not cleared on hide.
    assert!(b.applied.is_some());
}

#[test]
fn stale_frame_after_hide_show_is_a_no_op() {
    // Visibility flips true, false, true before the first deferred pass
    // fires: the first frame must not write; the machine waits for its own
    // fresh pass.
    let (dom, anchor) = small_tree();
    let (target, content, viewport) = rects();
    let mut reg = ListenerRegistry::new();
    let mut b = Binder::new(Follower { placement: FollowerPlacement::BottomStart, width: None });

    let frame_a = b.on_show(&mut reg, &dom, Some(anchor), true, 1).unwrap();
    b.on_hide(&mut reg);
    let frame_b = b.on_show(&mut reg, &dom, Some(anchor), true, 1).unwrap();
    assert_ne!(frame_a, frame_b);

    let wrote = b.on_frame(frame_a, target, content, viewport);
    assert!(!wrote);
    assert!(b.applied.is_none());
    assert_eq!(b.state, SyncState::PendingFirstLayout);

    let wrote = b.on_frame(frame_b, target, content, viewport);
    assert!(wrote);
    assert_eq!(b.state, SyncState::Tracking);
}

#[test]
fn degenerate_first_layout_waits_for_the_next_event() {
    let (dom, anchor) = small_tree();
    let (target, _, viewport) = rects();
    let mut reg = ListenerRegistry::new();
    let mut b = Binder::new(Follower { placement: FollowerPlacement::BottomStart, width: None });
    let frame = b.on_show(&mut reg, &dom, Some(anchor), true, 1).unwrap();

    // The panel has not been laid out yet: nothing is written, no reschedule.
    let wrote = b.on_frame(frame, target, Rect::new(0, 0, 0, 0), viewport);
    assert!(!wrote);
    assert_eq!(b.state, SyncState::PendingFirstLayout);
    assert!(b.applied.is_none());

    // A later scroll event carries valid rectangles and completes the pass.
    let wrote = b.sync_position(target, Rect::new(0, 0, 80, 30), viewport);
    assert!(wrote);
    assert_eq!(b.state, SyncState::Tracking);
}

#[test]
fn tracking_freezes_on_degenerate_snapshot() {
    let (dom, anchor) = small_tree();
    let (target, content, viewport) = rects();
    let mut reg = ListenerRegistry::new();
    let mut b = Binder::new(Follower { placement: FollowerPlacement::BottomStart, width: None });
    let frame = b.on_show(&mut reg, &dom, Some(anchor), true, 1).unwrap();
    assert!(b.on_frame(frame, target, content, viewport));
    let before = (b.applied.as_ref().unwrap().top, b.applied.as_ref().unwrap().left);

    // The anchor detaches: the style stays as it was, visibly stale.
    let wrote = b.sync_position(Rect::new(0, 0, 0, 0), content, viewport);
    assert!(!wrote);
    assert_eq!(b.state, SyncState::Tracking);
    let after = (b.applied.as_ref().unwrap().top, b.applied.as_ref().unwrap().left);
    assert_eq!(before, after);
}

#[test]
fn show_without_attached_handles_stays_hidden() {
    let (dom, _) = small_tree();
    let mut reg = ListenerRegistry::new();
    let mut b = Binder::new(Follower { placement: FollowerPlacement::Top, width: None });
    assert!(b.on_show(&mut reg, &dom, None, true, 1).is_none());
    assert_eq!(b.state, SyncState::Hidden);
    assert_eq!(reg.live_listeners(), 0);
    assert!(b.on_show(&mut reg, &dom, Some(0), false, 1).is_none());
    assert_eq!(b.state, SyncState::Hidden);
    assert_eq!(reg.live_listeners(), 0);
}

#[test]
fn unmount_releases_everything_from_any_state() {
    let (dom, anchor) = small_tree();
    let mut reg = ListenerRegistry::new();
    let mut b = Binder::new(Follower { placement: FollowerPlacement::Bottom, width: None });
    b.on_show(&mut reg, &dom, Some(anchor), true, 1);
    assert_eq!(reg.live_listeners(), 3);
    // Unmount while still visible and pending.
    b.unmount(&mut reg);
    assert_eq!(reg.live_listeners(), 0);
    assert_eq!(b.state, SyncState::Hidden);
    // Unmounting an already hidden binder is safe.
    b.unmount(&mut reg);
    assert_eq!(reg.live_listeners(), 0);
}

#[test]
fn portal_is_built_once_across_visibility_flips() {
    let (dom, anchor) = small_tree();
    let mut reg = ListenerRegistry::new();
    let mut b = Binder::new(Follower { placement: FollowerPlacement::Bottom, width: None });
    for _ in 0..5 {
        b.on_show(&mut reg, &dom, Some(anchor), true, 1);
        b.on_hide(&mut reg);
    }
    assert_eq!(b.teleport.build_count, 1);
    assert!(b.teleport.built && !b.teleport.present);
}

#[test]
fn width_follows_the_follower_configuration() {
    let target = Rect::new(0, 0, 50, 20);
    let b = Binder::new(Follower {
        placement: FollowerPlacement::Bottom,
        width: Some(FollowerWidth::MinTarget),
    });
    assert_eq!(b.width_constraint(target), Some(WidthConstraint::MinWidth(50)));
    let b = Binder::new(Follower { placement: FollowerPlacement::Bottom, width: None });
    assert_eq!(b.width_constraint(target), None);
}
