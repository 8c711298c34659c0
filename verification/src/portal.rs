//! The portal adapter: the boundary to the external view renderer.
//!
//! The floating subtree is constructed at most once, however often the
//! visibility flag flips; showing and hiding only toggle a presence flag, so
//! the renderer attaches and detaches the same subtree and every element
//! handle stays valid across hide/show cycles.

use vstd::prelude::*;

verus! {

/// The mount state of the floating subtree held outside the render tree.
#[derive(Clone, Copy, Debug, PartialEq, Eq, Structural)]
pub struct Teleport {
    /// Whether the subtree has been constructed.
    pub built: bool,
    /// Whether the renderer currently shows the subtree.
    pub present: bool,
    /// How many times the subtree was constructed.
    pub build_count: u64,
}

impl Teleport {
    /// Construction happened exactly as often as the built flag says: never
    /// more than once.
    pub open spec fn wf(self) -> bool {
        self.build_count == (if self.built {
            1int
        } else {
            0int
        })
    }

    /// A portal with nothing constructed and nothing shown.
    pub fn new() -> (r: Teleport)
        ensures
            r.wf(),
            !r.built,
            !r.present,
            r.build_count == 0,
    {
        Teleport { built: false, present: false, build_count: 0 }
    }

    /// Construct the subtree unless it already exists.
    pub fn ensure_mounted(&mut self)
        requires
            old(self).wf(),
        ensures
            final(self).wf(),
            final(self).built,
            final(self).present == old(self).present,
            final(self).build_count == (if old(self).built {
                old(self).build_count as int
            } else {
                old(self).build_count + 1
            }),
    {
        if !self.built {
            self.built = true;
            self.build_count = self.build_count + 1;
        }
    }

    /// Toggle the presence flag the renderer reads; identity is kept.
    pub fn set_present(&mut self, present: bool)
        requires
            old(self).wf(),
        ensures
            final(self).wf(),
            final(self).present == present,
            final(self).built == old(self).built,
            final(self).build_count == old(self).build_count,
    {
        self.present = present;
    }
}

/// A well-formed portal was never constructed twice, whatever was done to it.
pub proof fn lemma_mounted_at_most_once(t: Teleport)
    requires
        t.wf(),
    ensures
        t.build_count <= 1,
{
}

} // verus!
