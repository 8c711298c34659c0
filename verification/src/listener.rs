//! Lifecycle of scroll and resize subscriptions.
//!
//! A [`ListenerRegistry`] stands for the platform's event system: it hands
//! out one token per attached native listener and takes each token back
//! exactly once.  A [`BinderListeners`] owns the tokens one binder holds:
//! one per scrollable ancestor of the current anchor, plus at most one
//! window-resize token.  Re-registration is all-or-nothing — every old token
//! is released before any new one is created — so the held set always
//! matches the chain discovered when registration last ran.

use vstd::prelude::*;

use crate::scroll_chain::DomTree;
use crate::scroll_chain::find_scrollable_ancestors;
use crate::scroll_chain::lemma_scroll_chain_sound;
use crate::scroll_chain::scroll_chain;

verus! {

/// A token for one active scroll subscription on one ancestor element.
/// Releasing it is irreversible: it is consumed by the release.
#[derive(Debug)]
pub struct ListenerHandle {
    pub id: u64,
    pub node: usize,
}

/// A token for the single window-resize subscription.
#[derive(Debug)]
pub struct WindowListenerHandle {
    pub id: u64,
}

/// The platform's view of attached native listeners: a fresh id per
/// subscription and the set of ids still attached.
pub struct ListenerRegistry {
    pub next_id: u64,
    pub active_count: u64,
    pub active_ids: Ghost<Set<u64>>,
}

impl ListenerRegistry {
    /// The ids of the listeners currently attached.
    pub open spec fn active(self) -> Set<u64> {
        self.active_ids@
    }

    /// The count mirrors the set, ids are never reused, and the bookkeeping
    /// cannot overflow before `next_id` does.
    pub open spec fn wf(self) -> bool {
        &&& self.active_ids@.finite()
        &&& self.active_ids@.len() == self.active_count
        &&& forall|id: u64| self.active_ids@.contains(id) ==> id < self.next_id
        &&& self.active_count <= self.next_id
    }

    /// A platform with nothing attached.
    pub fn new() -> (r: ListenerRegistry)
        ensures
            r.wf(),
            r.active() == Set::<u64>::empty(),
            r.active_count == 0,
            r.next_id == 0,
    {
        ListenerRegistry { next_id: 0, active_count: 0, active_ids: Ghost(Set::empty()) }
    }

    /// Attach one scroll listener to the given ancestor node.
    pub fn observe_scroll(&mut self, node: usize) -> (h: ListenerHandle)
        requires
            old(self).wf(),
            old(self).next_id < u64::MAX,
        ensures
            final(self).wf(),
            h.id == old(self).next_id,
            h.node == node,
            !old(self).active().contains(h.id),
            final(self).active() == old(self).active().insert(h.id),
            final(self).active_count == old(self).active_count + 1,
            final(self).next_id == old(self).next_id + 1,
    {
        let id = self.next_id;
        self.next_id = self.next_id + 1;
        self.active_count = self.active_count + 1;
        proof {
            self.active_ids@ = self.active_ids@.insert(id);
        }
        ListenerHandle { id, node }
    }

    /// Attach the window-resize listener.
    pub fn observe_resize(&mut self) -> (h: WindowListenerHandle)
        requires
            old(self).wf(),
            old(self).next_id < u64::MAX,
        ensures
            final(self).wf(),
            h.id == old(self).next_id,
            !old(self).active().contains(h.id),
            final(self).active() == old(self).active().insert(h.id),
            final(self).active_count == old(self).active_count + 1,
            final(self).next_id == old(self).next_id + 1,
    {
        let id = self.next_id;
        self.next_id = self.next_id + 1;
        self.active_count = self.active_count + 1;
        proof {
            self.active_ids@ = self.active_ids@.insert(id);
        }
        WindowListenerHandle { id }
    }

    /// Detach the scroll listener the token stands for, consuming the token.
    pub fn release_scroll(&mut self, h: ListenerHandle)
        requires
            old(self).wf(),
            old(self).active().contains(h.id),
        ensures
            final(self).wf(),
            final(self).active() == old(self).active().remove(h.id),
            final(self).active_count == old(self).active_count - 1,
            final(self).next_id == old(self).next_id,
    {
        proof {
            self.active_ids@ = self.active_ids@.remove(h.id);
        }
        self.active_count = self.active_count - 1;
    }

    /// Detach the resize listener the token stands for, consuming the token.
    pub fn release_resize(&mut self, h: WindowListenerHandle)
        requires
            old(self).wf(),
            old(self).active().contains(h.id),
        ensures
            final(self).wf(),
            final(self).active() == old(self).active().remove(h.id),
            final(self).active_count == old(self).active_count - 1,
            final(self).next_id == old(self).next_id,
    {
        proof {
            self.active_ids@ = self.active_ids@.remove(h.id);
        }
        self.active_count = self.active_count - 1;
    }

    /// How many native listeners are attached right now.
    pub fn live_listeners(&self) -> (r: u64)
        ensures
            r == self.active_count,
    {
        self.active_count
    }
}

/// The ids of a sequence of scroll tokens.
pub open spec fn handle_ids(hs: Seq<ListenerHandle>) -> Set<u64> {
    Set::new(|id: u64| exists|k: int| 0 <= k < hs.len() && hs[k].id == id)
}

/// One binder's subscriptions: the scroll tokens for the ancestor chain of
/// the anchor registration last ran against, the single resize token, and
/// the stored position callbacks, named by caller-chosen ids.
pub struct BinderListeners {
    pub scroll_handles: Vec<ListenerHandle>,
    pub resize_handle: Option<WindowListenerHandle>,
    pub scroll_callback: Option<u64>,
    pub resize_callback: Option<u64>,
    pub registered_anchor: Option<usize>,
}

impl BinderListeners {
    /// The ancestor nodes the held scroll tokens listen on, nearest first.
    pub open spec fn scroll_nodes(self) -> Seq<usize> {
        self.scroll_handles@.map_values(|h: ListenerHandle| h.node)
    }

    /// Every id this binder holds, scroll and resize together.
    pub open spec fn held_ids(self) -> Set<u64> {
        match self.resize_handle {
            Option::Some(h) => handle_ids(self.scroll_handles@).insert(h.id),
            Option::None => handle_ids(self.scroll_handles@),
        }
    }

    /// The binder is the platform's only client: what the platform holds
    /// attached is exactly what the binder holds.
    pub open spec fn sole_owner(self, reg: ListenerRegistry) -> bool {
        reg.active() == self.held_ids()
    }

    /// Held tokens are distinct, all attached, and a cleared callback means
    /// no scroll token and no remembered anchor.
    pub open spec fn wf(self, reg: ListenerRegistry) -> bool {
        &&& forall|k: int|
            0 <= k < self.scroll_handles@.len()
                ==> reg.active().contains(#[trigger] self.scroll_handles@[k].id)
        &&& forall|k: int, l: int|
            0 <= k < l < self.scroll_handles@.len()
                ==> (#[trigger] self.scroll_handles@[k].id)
                    != (#[trigger] self.scroll_handles@[l].id)
        &&& self.resize_handle matches Option::Some(h) ==> {
            &&& reg.active().contains(h.id)
            &&& forall|k: int|
                0 <= k < self.scroll_handles@.len()
                    ==> (#[trigger] self.scroll_handles@[k].id) != h.id
        }
        &&& self.scroll_callback is None ==> {
            &&& self.scroll_handles@.len() == 0
            &&& self.registered_anchor is None
        }
        &&& self.registered_anchor is Some <==> self.scroll_callback is Some
        &&& self.resize_callback is Some <==> self.resize_handle is Some
    }

    /// A binder that holds nothing yet.
    pub fn new() -> (r: BinderListeners)
        ensures
            r.scroll_handles@.len() == 0,
            r.resize_handle is None,
            r.scroll_callback is None,
            r.resize_callback is None,
            r.registered_anchor is None,
            forall|reg: ListenerRegistry| reg.wf() ==> r.wf(reg),
            r.held_ids() == handle_ids(Seq::<ListenerHandle>::empty()),
    {
        BinderListeners {
            scroll_handles: Vec::new(),
            resize_handle: Option::None,
            scroll_callback: Option::None,
            resize_callback: Option::None,
            registered_anchor: Option::None,
        }
    }

    /// Release every held scroll token, leaving the rest of the state as it
    /// stands.
    #[verifier::loop_isolation(false)]
    fn drop_scroll_handles(&mut self, reg: &mut ListenerRegistry)
        requires
            old(self).wf(*old(reg)),
            old(reg).wf(),
        ensures
            final(reg).wf(),
            final(self).wf(*final(reg)),
            final(self).scroll_handles@.len() == 0,
            final(self).resize_handle == old(self).resize_handle,
            final(self).scroll_callback == old(self).scroll_callback,
            final(self).resize_callback == old(self).resize_callback,
            final(self).registered_anchor == old(self).registered_anchor,
            final(reg).next_id == old(reg).next_id,
            final(reg).active() == old(reg).active().difference(
                handle_ids(old(self).scroll_handles@),
            ),
            final(reg).active_count == old(reg).active_count
                - old(self).scroll_handles@.len(),
            old(self).scroll_handles@.len() == 0 ==> *final(reg) == *old(reg),
    {
        let ghost orig_hs = self.scroll_handles@;
        let ghost orig_active = reg.active();
        let ghost orig_count = reg.active_count as int;
        if self.scroll_handles.len() == 0 {
            proof {
                assert(orig_active.difference(handle_ids(orig_hs)) =~= orig_active);
            }
            return;
        }
        proof {
            assert(handle_ids(orig_hs.skip(orig_hs.len() as int)) =~= Set::<u64>::empty());
            assert(reg.active() =~= orig_active.difference(
                handle_ids(orig_hs.skip(orig_hs.len() as int)),
            ));
            assert(orig_hs.subrange(0, orig_hs.len() as int) =~= orig_hs);
        }
        while self.scroll_handles.len() > 0
            invariant
                reg.wf(),
                self.scroll_handles@.len() <= orig_hs.len(),
                self.scroll_handles@ == orig_hs.subrange(
                    0,
                    self.scroll_handles@.len() as int,
                ),
                self.resize_handle == old(self).resize_handle,
                self.scroll_callback == old(self).scroll_callback,
                self.resize_callback == old(self).resize_callback,
                self.registered_anchor == old(self).registered_anchor,
                reg.next_id == old(reg).next_id,
                forall|k: int|
                    0 <= k < self.scroll_handles@.len()
                        ==> reg.active().contains(#[trigger] self.scroll_handles@[k].id),
                forall|k: int, l: int|
                    0 <= k < l < orig_hs.len()
                        ==> (#[trigger] orig_hs[k].id) != (#[trigger] orig_hs[l].id),
                self.resize_handle matches Option::Some(h) ==> reg.active().contains(h.id)
                    && forall|k: int|
                    0 <= k < orig_hs.len() ==> (#[trigger] orig_hs[k].id) != h.id,
                reg.active() == orig_active.difference(
                    handle_ids(orig_hs.skip(self.scroll_handles@.len() as int)),
                ),
                reg.active_count == orig_count
                    - (orig_hs.len() - self.scroll_handles@.len()),
            decreases self.scroll_handles@.len(),
        {
            match self.scroll_handles.pop() {
                Option::Some(h) => {
                    let ghost j = self.scroll_handles@.len() as int;
                    proof {
                        assert(h == orig_hs[j]);
                        assert(self.scroll_handles@ =~= orig_hs.subrange(0, j));
                        assert(handle_ids(orig_hs.skip(j)) =~= handle_ids(
                            orig_hs.skip(j + 1),
                        ).insert(h.id)) by {
                            assert forall|id: u64|
                                handle_ids(orig_hs.skip(j)).contains(id)
                                    implies handle_ids(orig_hs.skip(j + 1)).insert(
                                h.id,
                            ).contains(id) by {
                                let k = choose|k: int|
                                    0 <= k < orig_hs.skip(j).len() && orig_hs.skip(
                                        j,
                                    )[k].id == id;
                                if k > 0 {
                                    assert(orig_hs.skip(j + 1)[k - 1].id == id);
                                }
                            }
                            assert forall|id: u64|
                                handle_ids(orig_hs.skip(j + 1)).insert(h.id).contains(id)
                                    implies handle_ids(orig_hs.skip(j)).contains(id) by {
                                if id == h.id {
                                    assert(orig_hs.skip(j)[0].id == id);
                                } else {
                                    let k = choose|k: int|
                                        0 <= k < orig_hs.skip(j + 1).len()
                                            && (#[trigger] orig_hs.skip(j + 1)[k]).id == id;
                                    assert(orig_hs.skip(j)[k + 1].id == id);
                                }
                            }
                        }
                        assert(!handle_ids(orig_hs.skip(j + 1)).contains(h.id)) by {
                            if handle_ids(orig_hs.skip(j + 1)).contains(h.id) {
                                let k = choose|k: int|
                                    0 <= k < orig_hs.skip(j + 1).len()
                                        && (#[trigger] orig_hs.skip(j + 1)[k]).id == h.id;
                                assert(orig_hs[j + 1 + k].id == h.id);
                            }
                        }
                    }
                    reg.release_scroll(h);
                    proof {
                        assert(reg.active() =~= orig_active.difference(
                            handle_ids(orig_hs.skip(j)),
                        ));
                    }
                },
                Option::None => {},
            }
        }
        proof {
            assert(orig_hs.skip(0) =~= orig_hs);
        }
    }

    /// Register the position callback.  When a callback is already stored for
    /// this same anchor, only the callback is replaced; otherwise every old
    /// scroll token is released and one token per scrollable ancestor of
    /// `anchor` is created — all-or-nothing, never a partially stale set.
    pub fn add_scroll_listener(
        &mut self,
        reg: &mut ListenerRegistry,
        dom: &DomTree,
        anchor: usize,
        cb: u64,
    )
        requires
            old(self).wf(*old(reg)),
            old(reg).wf(),
            dom.wf(),
            anchor < dom.nodes@.len(),
            old(reg).next_id + dom.nodes@.len() <= u64::MAX,
        ensures
            final(self).wf(*final(reg)),
            final(reg).wf(),
            final(self).scroll_callback == Some(cb),
            final(self).resize_handle == old(self).resize_handle,
            final(self).resize_callback == old(self).resize_callback,
            (old(self).scroll_callback is Some && old(self).registered_anchor == Some(
                anchor,
            )) ==> {
                &&& final(self).scroll_handles == old(self).scroll_handles
                &&& final(self).registered_anchor == old(self).registered_anchor
                &&& *final(reg) == *old(reg)
            },
            !(old(self).scroll_callback is Some && old(self).registered_anchor == Some(
                anchor,
            )) ==> {
                &&& final(self).registered_anchor == Some(anchor)
                &&& final(self).scroll_nodes() == scroll_chain(dom.nodes@, anchor as int)
                &&& final(reg).active() == old(reg).active().difference(
                    handle_ids(old(self).scroll_handles@),
                ).union(handle_ids(final(self).scroll_handles@))
                &&& forall|id: u64|
                    handle_ids(old(self).scroll_handles@).contains(id)
                        ==> !final(reg).active().contains(id)
                &&& final(reg).active_count == old(reg).active_count
                    - old(self).scroll_handles@.len()
                    + scroll_chain(dom.nodes@, anchor as int).len()
                &&& final(reg).next_id == old(reg).next_id
                    + scroll_chain(dom.nodes@, anchor as int).len()
            },
            old(self).sole_owner(*old(reg)) ==> final(self).sole_owner(*final(reg)),
    {
        let same_anchor = match self.registered_anchor {
            Option::Some(a) => a == anchor,
            Option::None => false,
        };
        if self.scroll_callback.is_some() && same_anchor {
            self.scroll_callback = Option::Some(cb);
            return;
        }
        let ghost old_active = reg.active();
        let ghost old_scroll_ids = handle_ids(self.scroll_handles@);
        self.drop_scroll_handles(reg);
        let ghost base_active = reg.active();
        let ghost base_id = reg.next_id;
        let ghost base_count = reg.active_count as int;
        proof {
            lemma_scroll_chain_sound(dom.nodes@, anchor as int);
        }
        let chain = find_scrollable_ancestors(dom, anchor);
        let mut handles: Vec<ListenerHandle> = Vec::new();
        let mut i: usize = 0;
        proof {
            assert(handle_ids(handles@) =~= Set::<u64>::empty());
            assert(base_active.union(handle_ids(handles@)) =~= base_active);
            assert(handles@.map_values(|h: ListenerHandle| h.node) =~= chain@.subrange(
                0,
                0,
            ));
        }
        #[verifier::loop_isolation(false)]
        while i < chain.len()
            invariant
                i <= chain@.len(),
                handles@.len() == i,
                reg.wf(),
                reg.next_id == base_id + i,
                reg.active_count == base_count + i,
                reg.active() == base_active.union(handle_ids(handles@)),
                forall|k: int|
                    0 <= k < i ==> (#[trigger] handles@[k].id) == base_id + k,
                handles@.map_values(|h: ListenerHandle| h.node) == chain@.subrange(0, i as int),
            decreases chain@.len() - i,
        {
            let ghost pre = handles@;
            let h = reg.observe_scroll(chain[i]);
            handles.push(h);
            i = i + 1;
            proof {
                lemma_handle_ids_push(pre, h);
                assert(base_active.union(handle_ids(pre)).insert(h.id)
                    =~= base_active.union(handle_ids(handles@)));
                assert(handles@.map_values(|hh: ListenerHandle| hh.node)
                    =~= chain@.subrange(0, i as int));
            }
        }
        proof {
            assert(chain@.subrange(0, chain@.len() as int) =~= chain@);
        }
        self.scroll_handles = handles;
        self.registered_anchor = Option::Some(anchor);
        self.scroll_callback = Option::Some(cb);
        proof {
            assert forall|id: u64| handle_ids(self.scroll_handles@).contains(id)
                implies id >= base_id by {
                let k = choose|k: int|
                    0 <= k < self.scroll_handles@.len()
                        && (#[trigger] self.scroll_handles@[k]).id == id;
            }
            assert forall|id: u64| old_scroll_ids.contains(id)
                implies !reg.active().contains(id) by {
                assert(id < base_id);
                assert(!base_active.contains(id));
            }
            assert(self.scroll_nodes() == scroll_chain(dom.nodes@, anchor as int));
            if old(self).sole_owner(*old(reg)) {
                assert(reg.active() =~= self.held_ids()) by {
                    assert forall|id: u64| reg.active().contains(id)
                        implies self.held_ids().contains(id) by {
                        if base_active.contains(id) {
                            assert(old_active.contains(id));
                            assert(!old_scroll_ids.contains(id));
                        }
                    }
                    assert forall|id: u64| self.held_ids().contains(id)
                        implies reg.active().contains(id) by {
                        if !handle_ids(self.scroll_handles@).contains(id) {
                            match old(self).resize_handle {
                                Option::Some(rh) => {
                                    assert(id == rh.id);
                                    assert(old_active.contains(id));
                                    assert(!old_scroll_ids.contains(id));
                                },
                                Option::None => {},
                            }
                        }
                    }
                }
            }
        }
    }

    /// Release every held scroll token — the set drains to empty — and clear
    /// the stored callback and anchor.  A no-op when nothing is registered.
    pub fn remove_scroll_listener(&mut self, reg: &mut ListenerRegistry)
        requires
            old(self).wf(*old(reg)),
            old(reg).wf(),
        ensures
            final(self).wf(*final(reg)),
            final(reg).wf(),
            final(self).scroll_handles@.len() == 0,
            final(self).scroll_callback is None,
            final(self).registered_anchor is None,
            final(self).resize_handle == old(self).resize_handle,
            final(self).resize_callback == old(self).resize_callback,
            final(reg).next_id == old(reg).next_id,
            final(reg).active() == old(reg).active().difference(
                handle_ids(old(self).scroll_handles@),
            ),
            final(reg).active_count == old(reg).active_count
                - old(self).scroll_handles@.len(),
            old(self).scroll_handles@.len() == 0 ==> *final(reg) == *old(reg),
            old(self).sole_owner(*old(reg)) ==> final(self).sole_owner(*final(reg)),
    {
        let ghost old_scroll_ids = handle_ids(self.scroll_handles@);
        self.drop_scroll_handles(reg);
        self.scroll_callback = Option::None;
        self.registered_anchor = Option::None;
        proof {
            if old(self).sole_owner(*old(reg)) {
                assert(reg.active() =~= self.held_ids()) by {
                    assert(handle_ids(self.scroll_handles@) =~= Set::<u64>::empty());
                }
            }
        }
    }

    /// Register the resize callback, releasing any previous resize token
    /// first: at most one resize subscription ever exists.
    pub fn add_resize_listener(&mut self, reg: &mut ListenerRegistry, cb: u64)
        requires
            old(self).wf(*old(reg)),
            old(reg).wf(),
            old(reg).next_id < u64::MAX,
        ensures
            final(self).wf(*final(reg)),
            final(reg).wf(),
            final(self).resize_callback == Some(cb),
            final(self).resize_handle is Some,
            final(self).scroll_handles == old(self).scroll_handles,
            final(self).scroll_callback == old(self).scroll_callback,
            final(self).registered_anchor == old(self).registered_anchor,
            final(self).resize_handle matches Some(newh) ==> {
                &&& newh.id == old(reg).next_id
                &&& final(reg).active() == (match old(self).resize_handle {
                    Option::Some(oldh) => old(reg).active().remove(oldh.id),
                    Option::None => old(reg).active(),
                }).insert(newh.id)
            },
            final(reg).active_count == old(reg).active_count + 1 - (
            if old(self).resize_handle is Some {
                1int
            } else {
                0int
            }),
            old(self).sole_owner(*old(reg)) ==> final(self).sole_owner(*final(reg)),
    {
        let prev = self.resize_handle.take();
        match prev {
            Option::Some(h) => {
                reg.release_resize(h);
            },
            Option::None => {},
        }
        let h = reg.observe_resize();
        self.resize_handle = Option::Some(h);
        self.resize_callback = Option::Some(cb);
        proof {
            if old(self).sole_owner(*old(reg)) {
                assert(reg.active() =~= self.held_ids());
            }
        }
    }

    /// Release the resize token if one is held; a no-op otherwise.
    pub fn remove_resize_listener(&mut self, reg: &mut ListenerRegistry)
        requires
            old(self).wf(*old(reg)),
            old(reg).wf(),
        ensures
            final(self).wf(*final(reg)),
            final(reg).wf(),
            final(self).resize_handle is None,
            final(self).resize_callback is None,
            final(self).scroll_handles == old(self).scroll_handles,
            final(self).scroll_callback == old(self).scroll_callback,
            final(self).registered_anchor == old(self).registered_anchor,
            final(reg).next_id == old(reg).next_id,
            final(reg).active() == (match old(self).resize_handle {
                Option::Some(h) => old(reg).active().remove(h.id),
                Option::None => old(reg).active(),
            }),
            final(reg).active_count == old(reg).active_count - (
            if old(self).resize_handle is Some {
                1int
            } else {
                0int
            }),
            old(self).resize_handle is None ==> *final(reg) == *old(reg),
            old(self).sole_owner(*old(reg)) ==> final(self).sole_owner(*final(reg)),
    {
        let prev = self.resize_handle.take();
        match prev {
            Option::Some(h) => {
                reg.release_resize(h);
            },
            Option::None => {},
        }
        self.resize_callback = Option::None;
        proof {
            if old(self).sole_owner(*old(reg)) {
                assert(reg.active() =~= self.held_ids());
            }
        }
    }
}

/// Pushing one token extends the id set by exactly that token's id.
proof fn lemma_handle_ids_push(hs: Seq<ListenerHandle>, h: ListenerHandle)
    ensures
        handle_ids(hs.push(h)) == handle_ids(hs).insert(h.id),
{
    assert(handle_ids(hs.push(h)) =~= handle_ids(hs).insert(h.id)) by {
        assert forall|id: u64| handle_ids(hs.push(h)).contains(id)
            implies handle_ids(hs).insert(h.id).contains(id) by {
            let k = choose|k: int|
                0 <= k < hs.push(h).len() && (#[trigger] hs.push(h)[k]).id == id;
            if k < hs.len() {
                assert(hs[k].id == id);
            }
        }
        assert forall|id: u64| handle_ids(hs).insert(h.id).contains(id)
            implies handle_ids(hs.push(h)).contains(id) by {
            if id == h.id {
                assert(hs.push(h)[hs.len() as int].id == id);
            } else {
                let k = choose|k: int|
                    0 <= k < hs.len() && (#[trigger] hs[k]).id == id;
                assert(hs.push(h)[k].id == id);
            }
        }
    }
}

/// The held ancestor set is never partially stale: once registration has run
/// against an anchor, the listened-on nodes are exactly the scrollable proper
/// ancestors of that anchor — every one of them, and nothing else.
pub proof fn lemma_registered_chain_exact(
    b: BinderListeners,
    dom: DomTree,
    anchor: usize,
    a: usize,
)
    requires
        b.scroll_nodes() == scroll_chain(dom.nodes@, anchor as int),
    ensures
        b.scroll_nodes().contains(a) <==> (crate::scroll_chain::is_proper_ancestor(
            dom.nodes@,
            a,
            anchor as int,
        ) && dom.nodes@[a as int].scrollable),
{
    crate::scroll_chain::lemma_scroll_chain_complete(dom.nodes@, anchor as int, a);
}

/// No leak: a binder that owns every attached listener and holds no token
/// leaves the platform with nothing attached.
pub proof fn lemma_no_listener_leak(b: BinderListeners, reg: ListenerRegistry)
    requires
        reg.wf(),
        b.sole_owner(reg),
        b.scroll_handles@.len() == 0,
        b.resize_handle is None,
    ensures
        reg.active() == Set::<u64>::empty(),
        reg.active_count == 0,
{
    assert(reg.active() =~= Set::<u64>::empty());
}

} // verus!
