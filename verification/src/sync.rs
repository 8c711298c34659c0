//! The synchronization controller: a state machine that keeps a floating
//! panel placed while it is visible.
//!
//! States: hidden; visible but waiting for the renderer's first layout of the
//! panel; and tracking, with listeners attached and a style applied.  The
//! first geometry pass after becoming visible is deferred one paint frame;
//! the deferred callback carries the epoch it was scheduled under, and hiding
//! bumps the epoch, so a callback that outlived its visibility span is a
//! no-op rather than a resurrection of a hidden panel.  Scroll and resize
//! events re-run geometry synchronously; a degenerate snapshot while tracking
//! leaves the last applied style untouched (visibly stale rather than
//! flickering), which is the chosen design.

use vstd::prelude::*;

use crate::geometry::FollowerPlacementOffset;
use crate::geometry::FollowerWidth;
use crate::geometry::Rect;
use crate::geometry::WidthConstraint;
use crate::geometry::get_follower_placement_offset;
use crate::geometry::naive_left;
use crate::geometry::naive_top;
use crate::geometry::resolve_follower_width;
use crate::geometry::resolved_width;
use crate::geometry::resolved_placement;
use crate::listener::BinderListeners;
use crate::listener::ListenerRegistry;
use crate::placement::FollowerPlacement;
use crate::placement::transform_origin_spec;
use crate::portal::Teleport;
use crate::scroll_chain::DomTree;
use crate::scroll_chain::scroll_chain;

verus! {

/// Where the controller stands in a panel's lifecycle.
#[derive(Clone, Copy, Debug, PartialEq, Eq, Structural)]
pub enum SyncState {
    /// The panel is not shown; no listeners are attached by this machine.
    Hidden,
    /// Visible, listeners attached, but no valid rectangles seen yet.
    PendingFirstLayout,
    /// Visible with a style applied; every event re-runs geometry.
    Tracking,
}

/// A deferred paint-frame callback, stamped with the epoch it was scheduled
/// under.  The environment hands it back when the frame fires.
#[derive(Clone, Copy, Debug, PartialEq, Eq, Structural)]
pub struct FrameRequest {
    pub epoch: u64,
}

/// What a follower asks of its binder: the requested placement and how the
/// panel's width follows the anchor's.  The panel's subtree itself lives
/// with the renderer, behind the portal.
#[derive(Clone, Copy, Debug)]
pub struct Follower {
    pub placement: FollowerPlacement,
    pub width: Option<FollowerWidth>,
}

/// One floating panel bound to an anchor: its listener tokens, its portal,
/// its requested placement, and the style last written.
pub struct Binder {
    pub listeners: BinderListeners,
    pub teleport: Teleport,
    pub placement: FollowerPlacement,
    pub width: Option<FollowerWidth>,
    pub state: SyncState,
    pub applied: Option<FollowerPlacementOffset>,
    pub epoch: u64,
}

impl Binder {
    /// Listener bookkeeping is sound against the platform, the portal was
    /// built at most once, and while visible both callbacks are registered.
    pub open spec fn wf(self, reg: ListenerRegistry) -> bool {
        &&& self.listeners.wf(reg)
        &&& self.teleport.wf()
        &&& self.state != SyncState::Hidden <==> self.listeners.scroll_callback is Some
        &&& self.state != SyncState::Hidden <==> self.listeners.resize_callback is Some
    }

    /// A binder for a follower's request, hidden and holding nothing.
    pub fn new(follower: Follower) -> (r: Binder)
        ensures
            forall|reg: ListenerRegistry| reg.wf() ==> r.wf(reg),
            r.state == SyncState::Hidden,
            r.applied is None,
            r.epoch == 0,
            r.placement == follower.placement,
            r.width == follower.width,
            r.listeners.scroll_handles@.len() == 0,
            r.listeners.resize_handle is None,
            !r.teleport.built,
            forall|reg: ListenerRegistry|
                reg.wf() ==> #[trigger] r.listeners.sole_owner(reg) == (reg.active()
                    == Set::<u64>::empty()),
    {
        let r = Binder {
            listeners: BinderListeners::new(),
            teleport: Teleport::new(),
            placement: follower.placement,
            width: follower.width,
            state: SyncState::Hidden,
            applied: Option::None,
            epoch: 0,
        };
        proof {
            assert forall|reg: ListenerRegistry| reg.wf() implies #[trigger] r.listeners.sole_owner(
                reg,
            ) == (reg.active() == Set::<u64>::empty()) by {
                assert(r.listeners.held_ids() =~= Set::<u64>::empty());
                if reg.active() =~= Set::<u64>::empty() {
                    assert(reg.active() == r.listeners.held_ids());
                }
            }
        }
        r
    }

    /// The visibility flag turned true.  When the anchor and the panel are
    /// both attached, mount the portal, register scroll and resize listeners
    /// against the current anchor, move to the waiting state, and schedule
    /// one deferred geometry pass stamped with the current epoch.  Otherwise
    /// nothing changes.
    pub fn on_show(
        &mut self,
        reg: &mut ListenerRegistry,
        dom: &DomTree,
        anchor: Option<usize>,
        content_attached: bool,
        cb: u64,
    ) -> (frame: Option<FrameRequest>)
        requires
            old(self).wf(*old(reg)),
            old(reg).wf(),
            dom.wf(),
            anchor matches Some(a) ==> a < dom.nodes@.len(),
            old(reg).next_id + dom.nodes@.len() < u64::MAX,
        ensures
            final(self).wf(*final(reg)),
            final(reg).wf(),
            final(self).applied == old(self).applied,
            final(self).epoch == old(self).epoch,
            final(self).placement == old(self).placement,
            final(self).width == old(self).width,
            old(self).listeners.sole_owner(*old(reg)) ==> final(self).listeners.sole_owner(
                *final(reg),
            ),
            (old(self).state == SyncState::Hidden && anchor is Some && content_attached)
                ==> {
                &&& final(self).state == SyncState::PendingFirstLayout
                &&& frame == Some(FrameRequest { epoch: old(self).epoch })
                &&& final(self).teleport.built
                &&& final(self).teleport.present
                &&& final(self).listeners.scroll_nodes() == scroll_chain(
                    dom.nodes@,
                    anchor->0 as int,
                )
                &&& final(self).listeners.registered_anchor == anchor
                &&& final(self).listeners.scroll_callback == Some(cb)
                &&& final(self).listeners.resize_callback == Some(cb)
                &&& final(self).listeners.resize_handle is Some
            },
            !(old(self).state == SyncState::Hidden && anchor is Some && content_attached)
                ==> {
                &&& frame is None
                &&& *final(self) == *old(self)
                &&& *final(reg) == *old(reg)
            },
    {
        let show_now = match self.state {
            SyncState::Hidden => content_attached && anchor.is_some(),
            _ => false,
        };
        if !show_now {
            return Option::None;
        }
        let a = match anchor {
            Option::Some(a) => a,
            Option::None => 0,
        };
        self.teleport.ensure_mounted();
        self.teleport.set_present(true);
        proof {
            crate::scroll_chain::lemma_scroll_chain_sound(dom.nodes@, a as int);
        }
        self.listeners.add_scroll_listener(reg, dom, a, cb);
        self.listeners.add_resize_listener(reg, cb);
        self.state = SyncState::PendingFirstLayout;
        Option::Some(FrameRequest { epoch: self.epoch })
    }

    /// The visibility flag turned false.  Remove every subscription, hide the
    /// portal, bump the epoch so outstanding deferred frames die, and return
    /// to hidden.  The last applied style is not cleared.  When this binder
    /// owned every attached listener, nothing stays attached.
    pub fn on_hide(&mut self, reg: &mut ListenerRegistry)
        requires
            old(self).wf(*old(reg)),
            old(reg).wf(),
            old(self).epoch < u64::MAX,
        ensures
            final(self).wf(*final(reg)),
            final(reg).wf(),
            final(self).state == SyncState::Hidden,
            final(self).applied == old(self).applied,
            final(self).epoch == old(self).epoch + 1,
            final(self).placement == old(self).placement,
            final(self).width == old(self).width,
            final(self).listeners.scroll_handles@.len() == 0,
            final(self).listeners.resize_handle is None,
            final(self).listeners.scroll_callback is None,
            final(self).listeners.resize_callback is None,
            final(self).teleport.built == old(self).teleport.built,
            !final(self).teleport.present,
            old(self).listeners.sole_owner(*old(reg)) ==> {
                &&& final(self).listeners.sole_owner(*final(reg))
                &&& final(reg).active() == Set::<u64>::empty()
                &&& final(reg).active_count == 0
            },
    {
        self.listeners.remove_scroll_listener(reg);
        self.listeners.remove_resize_listener(reg);
        self.teleport.set_present(false);
        self.epoch = self.epoch + 1;
        self.state = SyncState::Hidden;
        proof {
            if old(self).listeners.sole_owner(*old(reg)) {
                crate::listener::lemma_no_listener_leak(self.listeners, *reg);
            }
        }
    }

    /// The deferred first-layout pass fires.  A stale frame — scheduled
    /// before the last hide, or arriving in any state but the waiting one —
    /// writes nothing.  A live frame runs geometry: a placement moves the
    /// machine to tracking and applies the offset; a degenerate snapshot
    /// leaves the machine waiting for the next event, with nothing written.
    pub fn on_frame(
        &mut self,
        frame: FrameRequest,
        target: Rect,
        content: Rect,
        viewport: Rect,
    ) -> (wrote: bool)
        requires
            target.wf(),
            content.wf(),
            viewport.wf(),
        ensures
            final(self).listeners == old(self).listeners,
            final(self).teleport == old(self).teleport,
            final(self).epoch == old(self).epoch,
            final(self).placement == old(self).placement,
            final(self).width == old(self).width,
            wrote <==> (old(self).state == SyncState::PendingFirstLayout && frame.epoch
                == old(self).epoch && !target.degenerate() && !content.degenerate()),
            !(old(self).state == SyncState::PendingFirstLayout && frame.epoch == old(
                self,
            ).epoch) ==> *final(self) == *old(self),
            wrote ==> {
                &&& final(self).state == SyncState::Tracking
                &&& final(self).applied matches Some(o) && o.placement
                    == resolved_placement(old(self).placement, target, content, viewport)
                    && o.top == naive_top(o.placement, target, content) && o.left
                    == naive_left(o.placement, target, content) && o.transform@
                    == transform_origin_spec(o.placement)
            },
            !wrote ==> final(self).state == old(self).state && final(self).applied == old(
                self,
            ).applied,
    {
        let live = match self.state {
            SyncState::PendingFirstLayout => frame.epoch == self.epoch,
            _ => false,
        };
        if !live {
            return false;
        }
        match get_follower_placement_offset(self.placement, target, content, viewport) {
            Option::Some(o) => {
                self.applied = Option::Some(o);
                self.state = SyncState::Tracking;
                true
            },
            Option::None => false,
        }
    }

    /// A scroll or resize event while visible: re-run geometry synchronously.
    /// A placement is applied at once and the machine tracks; a degenerate
    /// snapshot changes nothing — while tracking the panel stays frozen at
    /// its last style rather than flickering.  Hidden, the event is a no-op.
    pub fn sync_position(
        &mut self,
        target: Rect,
        content: Rect,
        viewport: Rect,
    ) -> (wrote: bool)
        requires
            target.wf(),
            content.wf(),
            viewport.wf(),
        ensures
            final(self).listeners == old(self).listeners,
            final(self).teleport == old(self).teleport,
            final(self).epoch == old(self).epoch,
            final(self).placement == old(self).placement,
            final(self).width == old(self).width,
            wrote <==> (old(self).state != SyncState::Hidden && !target.degenerate()
                && !content.degenerate()),
            old(self).state == SyncState::Hidden ==> *final(self) == *old(self),
            wrote ==> {
                &&& final(self).state == SyncState::Tracking
                &&& final(self).applied matches Some(o) && o.placement
                    == resolved_placement(old(self).placement, target, content, viewport)
                    && o.top == naive_top(o.placement, target, content) && o.left
                    == naive_left(o.placement, target, content) && o.transform@
                    == transform_origin_spec(o.placement)
            },
            !wrote ==> final(self).state == old(self).state && final(self).applied == old(
                self,
            ).applied,
    {
        let visible = match self.state {
            SyncState::Hidden => false,
            _ => true,
        };
        if !visible {
            return false;
        }
        match get_follower_placement_offset(self.placement, target, content, viewport) {
            Option::Some(o) => {
                self.applied = Option::Some(o);
                self.state = SyncState::Tracking;
                true
            },
            Option::None => false,
        }
    }

    /// Unmount: force both removals whatever the current state, and go dark.
    /// When this binder owned every attached listener, none is left behind.
    pub fn unmount(&mut self, reg: &mut ListenerRegistry)
        requires
            old(self).wf(*old(reg)),
            old(reg).wf(),
        ensures
            final(self).wf(*final(reg)),
            final(reg).wf(),
            final(self).state == SyncState::Hidden,
            final(self).listeners.scroll_handles@.len() == 0,
            final(self).listeners.resize_handle is None,
            final(self).listeners.scroll_callback is None,
            final(self).listeners.resize_callback is None,
            !final(self).teleport.present,
            old(self).listeners.sole_owner(*old(reg)) ==> {
                &&& final(reg).active() == Set::<u64>::empty()
                &&& final(reg).active_count == 0
            },
    {
        self.listeners.remove_scroll_listener(reg);
        self.listeners.remove_resize_listener(reg);
        self.teleport.set_present(false);
        self.state = SyncState::Hidden;
        proof {
            if old(self).listeners.sole_owner(*old(reg)) {
                crate::listener::lemma_no_listener_leak(self.listeners, *reg);
            }
        }
    }

    /// The width constraint the panel's style carries, if one is configured.
    pub fn width_constraint(&self, target: Rect) -> (r: Option<WidthConstraint>)
        ensures
            r == match self.width {
                Option::Some(w) => Some(resolved_width(w, target.width)),
                Option::None => None::<WidthConstraint>,
            },
    {
        match self.width {
            Option::Some(w) => Option::Some(resolve_follower_width(w, target.width)),
            Option::None => Option::None,
        }
    }
}

} // verus!
