use thaw::listener::BinderListeners;
use thaw::listener::ListenerRegistry;
use thaw::scroll_chain::find_scrollable_ancestors;
use thaw::scroll_chain::DomTree;

/// A tree where node 3 has three scrollable ancestors (2, 1, 0) and node 6
/// has one (5).
fn two_anchor_tree() -> DomTree {
    let mut dom = DomTree::new();
    let n0 = dom.push_node(None, true);
    let n1 = dom.push_node(Some(n0), true);
    let n2 = dom.push_node(Some(n1), true);
    let _anchor_a = dom.push_node(Some(n2), false);
    let n4 = dom.push_node(None, false);
    let n5 = dom.push_node(Some(n4), true);
    let _anchor_b = dom.push_node(Some(n5), false);
    dom
}

#[test]
fn chain_discovery_nearest_first() {
    let dom = two_anchor_tree();
    assert_eq!(find_scrollable_ancestors(&dom, 3), vec![2, 1, 0]);
    assert_eq!(find_scrollable_ancestors(&dom, 6), vec![5]);
    // A walk starts above the anchor: a scrollable anchor is not its own
    // ancestor.
    assert_eq!(find_scrollable_ancestors(&dom, 0), Vec::<usize>::new());
}

#[test]
fn add_creates_one_handle_per_ancestor() {
    let dom = two_anchor_tree();
    let mut reg = ListenerRegistry::new();
    let mut b = BinderListeners::new();
    b.add_scroll_listener(&mut reg, &dom, 3, 1);
    assert_eq!(b.scroll_handles.len(), 3);
    assert_eq!(reg.live_listeners(), 3);
    assert_eq!(b.scroll_callback, Some(1));
    assert_eq!(b.registered_anchor, Some(3));
}

#[test]
fn re_add_same_anchor_only_replaces_callback() {
    let dom = two_anchor_tree();
    let mut reg = ListenerRegistry::new();
    let mut b = BinderListeners::new();
    b.add_scroll_listener(&mut reg, &dom, 3, 1);
    let ids: Vec<u64> = b.scroll_handles.iter().map(|h| h.id).collect();
    b.add_scroll_listener(&mut reg, &dom, 3, 2);
    let ids_after: Vec<u64> = b.scroll_handles.iter().map(|h| h.id).collect();
    assert_eq!(ids, ids_after);
    assert_eq!(b.scroll_callback, Some(2));
    assert_eq!(reg.live_listeners(), 3);
}

#[test]
fn remove_twice_is_safe_and_leaves_empty() {
    let mut reg = ListenerRegistry::new();
    let mut b = BinderListeners::new();
    // Never added: a no-op.
    b.remove_scroll_listener(&mut reg);
    assert_eq!(b.scroll_handles.len(), 0);
    assert_eq!(reg.live_listeners(), 0);
    // Twice in a row after a real registration.
    let dom = two_anchor_tree();
    b.add_scroll_listener(&mut reg, &dom, 3, 1);
    b.remove_scroll_listener(&mut reg);
    assert_eq!(b.scroll_handles.len(), 0);
    assert_eq!(reg.live_listeners(), 0);
    b.remove_scroll_listener(&mut reg);
    assert_eq!(b.scroll_handles.len(), 0);
    assert_eq!(reg.live_listeners(), 0);
    assert_eq!(b.scroll_callback, None);
}

#[test]
fn no_leak_over_many_cycles_with_varying_chains() {
    let dom = two_anchor_tree();
    let mut reg = ListenerRegistry::new();
    let mut b = BinderListeners::new();
    for round in 0..50u64 {
        let anchor = if round % 2 == 0 { 3 } else { 6 };
        b.add_scroll_listener(&mut reg, &dom, anchor, round);
        b.add_resize_listener(&mut reg, round);
        b.remove_scroll_listener(&mut reg);
        b.remove_resize_listener(&mut reg);
        assert_eq!(reg.live_listeners(), 0);
    }
    assert_eq!(reg.live_listeners(), 0);
}

#[test]
fn anchor_swap_replaces_the_whole_set() {
    // Three scrollable ancestors, then the anchor moves to one with a single
    // scrollable ancestor: the held set is exactly the new chain.
    let dom = two_anchor_tree();
    let mut reg = ListenerRegistry::new();
    let mut b = BinderListeners::new();
    b.add_scroll_listener(&mut reg, &dom, 3, 1);
    let old_ids: Vec<u64> = b.scroll_handles.iter().map(|h| h.id).collect();
    assert_eq!(b.scroll_handles.len(), 3);
    b.add_scroll_listener(&mut reg, &dom, 6, 1);
    assert_eq!(b.scroll_handles.len(), 1);
    assert_eq!(reg.live_listeners(), 1);
    let nodes: Vec<usize> = b.scroll_handles.iter().map(|h| h.node).collect();
    assert_eq!(nodes, vec![5]);
    for h in b.scroll_handles.iter() {
        assert!(!old_ids.contains(&h.id));
    }
}

#[test]
fn at_most_one_resize_listener() {
    let mut reg = ListenerRegistry::new();
    let mut b = BinderListeners::new();
    b.add_resize_listener(&mut reg, 1);
    let first = b.resize_handle.as_ref().unwrap().id;
    b.add_resize_listener(&mut reg, 2);
    let second = b.resize_handle.as_ref().unwrap().id;
    assert_ne!(first, second);
    assert_eq!(reg.live_listeners(), 1);
    assert_eq!(b.resize_callback, Some(2));
    b.remove_resize_listener(&mut reg);
    assert_eq!(reg.live_listeners(), 0);
    b.remove_resize_listener(&mut reg);
    assert_eq!(reg.live_listeners(), 0);
}

#[test]
fn empty_chain_still_registers_callback() {
    let mut dom = DomTree::new();
    let root = dom.push_node(None, false);
    let anchor = dom.push_node(Some(root), false);
    let mut reg = ListenerRegistry::new();
    let mut b = BinderListeners::new();
    b.add_scroll_listener(&mut reg, &dom, anchor, 9);
    assert_eq!(b.scroll_handles.len(), 0);
    assert_eq!(b.scroll_callback, Some(9));
    assert_eq!(reg.live_listeners(), 0);
}
