//! Discovery of the scrollable ancestors of an anchor node.
//!
//! The document tree arrives as plain values: one entry per node, holding the
//! index of its parent (parents come before children, so a parent index is
//! always smaller than the child's) and the verdict of the renderer's
//! "is this element scrollable" oracle.  The walk starts at the anchor's
//! parent, never the anchor itself, ends at the first node with no parent,
//! and lists every scrollable ancestor exactly once, nearest first.

use vstd::prelude::*;

verus! {

/// One node of the document tree, as the renderer reports it.
#[derive(Clone, Copy, Debug, PartialEq, Eq, Structural)]
pub struct DomNode {
    /// The index of the parent, absent on a root or a detached node.
    pub parent: Option<usize>,
    /// Whether the renderer's oracle calls this element scrollable.
    pub scrollable: bool,
}

/// A snapshot of the document tree, indexed in document order.
#[derive(Clone, Debug)]
pub struct DomTree {
    pub nodes: Vec<DomNode>,
}

impl DomTree {
    /// In document order a parent stands before its children, so every
    /// parent index is smaller than the node's own: the walk terminates.
    pub open spec fn wf(self) -> bool {
        forall|i: int|
            0 <= i < self.nodes@.len() && self.nodes@[i].parent is Some
                ==> (#[trigger] self.nodes@[i].parent)->0 < i
    }

    pub fn new() -> (r: DomTree)
        ensures
            r.nodes@.len() == 0,
            r.wf(),
    {
        DomTree { nodes: Vec::new() }
    }

    /// Append a node; its parent, if any, must already be in the tree.
    pub fn push_node(&mut self, parent: Option<usize>, scrollable: bool) -> (idx: usize)
        requires
            old(self).wf(),
            parent matches Some(p) ==> p < old(self).nodes@.len(),
            old(self).nodes@.len() < usize::MAX,
        ensures
            final(self).wf(),
            idx == old(self).nodes@.len(),
            final(self).nodes@ == old(self).nodes@.push(DomNode { parent, scrollable }),
    {
        let idx = self.nodes.len();
        self.nodes.push(DomNode { parent, scrollable });
        idx
    }

    pub fn len(&self) -> (r: usize)
        ensures
            r == self.nodes@.len(),
    {
        self.nodes.len()
    }
}

/// The scrollable ancestors of node `i`, nearest first: the chain of the
/// parent, with the parent itself in front when it is scrollable.
pub open spec fn scroll_chain(nodes: Seq<DomNode>, i: int) -> Seq<usize>
    decreases i,
{
    if 0 <= i < nodes.len() {
        match nodes[i].parent {
            Option::None => Seq::empty(),
            Option::Some(p) => if p < i {
                if nodes[p as int].scrollable {
                    seq![p] + scroll_chain(nodes, p as int)
                } else {
                    scroll_chain(nodes, p as int)
                }
            } else {
                Seq::empty()
            },
        }
    } else {
        Seq::empty()
    }
}

/// Every entry of a scroll chain is a scrollable node with an index below
/// the start, and the chain is strictly decreasing: no ancestor twice.
pub proof fn lemma_scroll_chain_sound(nodes: Seq<DomNode>, i: int)
    ensures
        forall|k: int|
            0 <= k < scroll_chain(nodes, i).len()
                ==> #[trigger] scroll_chain(nodes, i)[k] < i
                    && nodes[scroll_chain(nodes, i)[k] as int].scrollable,
        forall|k: int, l: int|
            0 <= k < l < scroll_chain(nodes, i).len()
                ==> #[trigger] scroll_chain(nodes, i)[k] > #[trigger] scroll_chain(nodes, i)[l],
        i >= 0 ==> scroll_chain(nodes, i).len() <= i,
    decreases i,
{
    if 0 <= i < nodes.len() {
        match nodes[i].parent {
            Option::None => {},
            Option::Some(p) => {
                if p < i {
                    lemma_scroll_chain_sound(nodes, p as int);
                }
            },
        }
    }
}

/// A node appears in the chain of `i` exactly when it is a proper ancestor
/// of `i` and scrollable.
pub proof fn lemma_scroll_chain_complete(nodes: Seq<DomNode>, i: int, a: usize)
    ensures
        scroll_chain(nodes, i).contains(a) <==> is_proper_ancestor(nodes, a, i)
            && nodes[a as int].scrollable,
    decreases i,
{
    if 0 <= i < nodes.len() {
        match nodes[i].parent {
            Option::None => {},
            Option::Some(p) => {
                if p < i {
                    lemma_scroll_chain_complete(nodes, p as int, a);
                    if a == p && nodes[p as int].scrollable {
                        assert(scroll_chain(nodes, i)[0] == p);
                        assert(scroll_chain(nodes, i).contains(a));
                    }
                    if scroll_chain(nodes, i).contains(a) && a != p {
                        let k = choose|k: int|
                            0 <= k < scroll_chain(nodes, i).len()
                                && scroll_chain(nodes, i)[k] == a;
                        if nodes[p as int].scrollable {
                            assert(scroll_chain(nodes, p as int)[k - 1] == a);
                        }
                        assert(scroll_chain(nodes, p as int).contains(a));
                    }
                    if a != p && scroll_chain(nodes, p as int).contains(a) {
                        let k = choose|k: int|
                            0 <= k < scroll_chain(nodes, p as int).len()
                                && scroll_chain(nodes, p as int)[k] == a;
                        if nodes[p as int].scrollable {
                            assert(scroll_chain(nodes, i)[k + 1] == a);
                        }
                        assert(scroll_chain(nodes, i).contains(a));
                    }
                }
            },
        }
    }
}

/// Whether `a` lies strictly above `i` on the parent path to the root.
pub open spec fn is_proper_ancestor(nodes: Seq<DomNode>, a: usize, i: int) -> bool
    decreases i,
{
    if 0 <= i < nodes.len() {
        match nodes[i].parent {
            Option::None => false,
            Option::Some(p) => if p < i {
                a == p || is_proper_ancestor(nodes, a, p as int)
            } else {
                false
            },
        }
    } else {
        false
    }
}

/// Walk upward from the anchor's parent and collect every scrollable
/// ancestor, nearest first.  Terminates on detached nodes: the walk stops at
/// the first missing parent.
pub fn find_scrollable_ancestors(tree: &DomTree, start: usize) -> (r: Vec<usize>)
    requires
        tree.wf(),
        start < tree.nodes@.len(),
    ensures
        r@ == scroll_chain(tree.nodes@, start as int),
{
    let mut out: Vec<usize> = Vec::new();
    let mut cur: usize = start;
    proof {
        assert(out@ + scroll_chain(tree.nodes@, start as int)
            =~= scroll_chain(tree.nodes@, start as int));
    }
    loop
        invariant
            tree.wf(),
            cur < tree.nodes@.len(),
            out@ + scroll_chain(tree.nodes@, cur as int)
                == scroll_chain(tree.nodes@, start as int),
        ensures
            out@ == scroll_chain(tree.nodes@, start as int),
        decreases cur,
    {
        match tree.nodes[cur].parent {
            Option::None => {
                proof {
                    assert(out@ + scroll_chain(tree.nodes@, cur as int) =~= out@);
                    assert(out@ == scroll_chain(tree.nodes@, start as int));
                }
                break;
            },
            Option::Some(p) => {
                assert(p < cur);
                let ghost prev = cur as int;
                if tree.nodes[p].scrollable {
                    assert(scroll_chain(tree.nodes@, prev)
                        =~= seq![p] + scroll_chain(tree.nodes@, p as int));
                    assert((out@ + scroll_chain(tree.nodes@, prev))
                        =~= (out@.push(p) + scroll_chain(tree.nodes@, p as int)));
                    out.push(p);
                } else {
                    assert(scroll_chain(tree.nodes@, prev)
                        == scroll_chain(tree.nodes@, p as int));
                }
                cur = p;
            },
        }
    }
    out
}

} // verus!
