//! The navigation engine: a cursor over the document arena.
//!
//! [`JsonPath`] keeps the arena, the currently focused node, and a stack of
//! [`Frame`]s. Each frame records an ancestor node and the selector used to
//! leave it, so the cursor is always reachable by replaying the selectors
//! from the root, and ascending restores prior context exactly.

use crate::doc::{Doc, Value};
use crate::segment::Segment;
use vstd::prelude::*;
use vstd::string::StringExecFns;

verus! {

/// The selector of the `i`-th child of `v`: a key-carrying name for object
/// fields, a bare position for array elements.
pub open spec fn spec_selector(v: Value, i: int) -> Segment
    recommends
        0 <= i < v.spec_child_count(),
{
    match v {
        Value::Object(fs) => Segment::Name(i as usize, fs@[i].0),
        _ => Segment::Index(i as usize),
    }
}

/// Clamps `current + delta` to the valid selection range for `count`
/// children: `[0, count - 1]`, or just `0` when there are no children.
pub open spec fn spec_move(count: nat, current: int, delta: int) -> int {
    let hi = if count == 0 { 0 } else { count - 1 };
    let x = current + delta;
    if x < 0 {
        0
    } else if x > hi {
        hi
    } else {
        x
    }
}

/// The node reached from `from` by following the selectors in `sels`, each
/// step moving to the child the selector's position names.
pub open spec fn spec_replay(doc: Doc, from: usize, sels: Seq<Segment>) -> usize
    decreases sels.len(),
{
    if sels.len() == 0 {
        from
    } else {
        spec_replay(
            doc,
            doc.nodes@[from as int].spec_child_id(sels[0].spec_index() as int),
            sels.drop_first(),
        )
    }
}

/// One path-stack entry: the ancestor node left behind and the selector
/// that was used to leave it.
pub struct Frame {
    pub node: usize,
    pub sel: Segment,
}

/// A cursor into the document tree, with the path back to the root.
pub struct JsonPath {
    pub doc: Doc,
    pub path: Vec<Frame>,
    pub cur: usize,
}

impl JsonPath {
    /// The node the cursor rests on.
    pub open spec fn cur_node(self) -> Value
        recommends
            self.cur < self.doc.nodes@.len(),
    {
        self.doc.nodes@[self.cur as int]
    }

    /// The node that frame `j`'s selector leads to: the next frame's node,
    /// or the cursor for the last frame.
    pub open spec fn link_target(self, j: int) -> usize {
        if j + 1 < self.path@.len() {
            self.path@[j + 1].node
        } else {
            self.cur
        }
    }

    /// Frame `j` is consistent: its node is in the arena, its selector picks
    /// an existing child of that node and is the selector of that child, and
    /// that child is where the path continues.
    pub open spec fn frame_wf(self, j: int) -> bool
        recommends
            0 <= j < self.path@.len(),
    {
        let f = self.path@[j];
        &&& f.node < self.doc.nodes@.len()
        &&& (f.sel.spec_index() as int) < self.doc.nodes@[f.node as int].spec_child_count()
        &&& f.sel == spec_selector(self.doc.nodes@[f.node as int], f.sel.spec_index() as int)
        &&& self.doc.nodes@[f.node as int].spec_child_id(f.sel.spec_index() as int)
            == self.link_target(j)
    }

    /// The engine is well formed: the arena is, the cursor is in the arena,
    /// the path stack starts at the root (or the cursor is the root), and
    /// every frame is consistent, so replaying the selectors from the root
    /// reaches the cursor (see `lemma_replay_reaches_cursor`).
    pub open spec fn wf(self) -> bool {
        &&& self.doc.wf()
        &&& self.cur < self.doc.nodes@.len()
        &&& if self.path@.len() > 0 {
            self.path@[0].node == self.doc.spec_root()
        } else {
            self.cur == self.doc.spec_root()
        }
        &&& forall|j: int| 0 <= j < self.path@.len() ==> #[trigger] self.frame_wf(j)
    }

    /// How `descend(i)` relates the engine before (`pre`) and after (`post`):
    /// with an existing child at `i` the frame stack grows by one and the
    /// cursor moves to that child; otherwise nothing changes.
    pub open spec fn descend_rel(pre: JsonPath, post: JsonPath, i: usize, moved: bool) -> bool {
        &&& post.doc == pre.doc
        &&& if (i as int) < pre.cur_node().spec_child_count() {
            &&& moved
            &&& post.cur == pre.cur_node().spec_child_id(i as int)
            &&& post.path@ == pre.path@.push(
                (Frame { node: pre.cur, sel: spec_selector(pre.cur_node(), i as int) }),
            )
        } else {
            &&& !moved
            &&& post.cur == pre.cur
            &&& post.path@ == pre.path@
        }
    }

    /// How `ascend()` relates the engine before and after: below the root
    /// the top frame is popped and returned, at the root nothing changes.
    pub open spec fn ascend_rel(pre: JsonPath, post: JsonPath, r: Option<Segment>) -> bool {
        &&& post.doc == pre.doc
        &&& if pre.path@.len() > 0 {
            &&& r == Some(pre.path@.last().sel)
            &&& post.cur == pre.path@.last().node
            &&& post.path@ == pre.path@.drop_last()
        } else {
            &&& r == None::<Segment>
            &&& post.cur == pre.cur
            &&& post.path@ == pre.path@
        }
    }

    /// A cursor at the root of `doc`, with an empty path stack.
    pub fn new(doc: Doc) -> (p: JsonPath)
        requires
            doc.wf(),
            doc.nodes@.len() > 0,
        ensures
            p.wf(),
            p.doc == doc,
            p.cur == doc.spec_root(),
            p.path@ =~= Seq::<Frame>::empty(),
    {
        let n = doc.nodes.len();
        JsonPath { doc, path: Vec::new(), cur: n - 1 }
    }

    /// The current depth: 0 at the root.
    pub fn depth(&self) -> (d: usize)
        ensures
            d == self.path@.len(),
    {
        self.path.len()
    }

    /// The arena index of the node the cursor rests on.
    pub fn cursor(&self) -> (c: usize)
        ensures
            c == self.cur,
    {
        self.cur
    }

    /// How many children the current node has; 0 for any scalar.
    pub fn field_count(&self) -> (n: usize)
        requires
            self.wf(),
        ensures
            n == self.cur_node().spec_child_count(),
    {
        match &self.doc.nodes[self.cur] {
            Value::Array(cs) => cs.len(),
            Value::Object(fs) => fs.len(),
            _ => 0,
        }
    }

    /// Moves the cursor to the `i`-th child of the current node and records
    /// the frame to come back by; with no child at `i` (in particular on any
    /// scalar) this is a no-op returning `false`.
    pub fn descend(&mut self, i: usize) -> (moved: bool)
        requires
            old(self).wf(),
        ensures
            final(self).wf(),
            JsonPath::descend_rel(*old(self), *final(self), i, moved),
    {
        let next: Option<(Segment, usize)> = match &self.doc.nodes[self.cur] {
            Value::Array(cs) => {
                if i < cs.len() {
                    Some((Segment::Index(i), cs[i]))
                } else {
                    None
                }
            },
            Value::Object(fs) => {
                if i < fs.len() {
                    let key = fs[i].0.clone();
                    Some((Segment::Name(i, key), fs[i].1))
                } else {
                    None
                }
            },
            _ => None,
        };
        match next {
            None => false,
            Some((sel, child)) => {
                let ghost pre = *self;
                self.path.push(Frame { node: self.cur, sel });
                self.cur = child;
                proof {
                    assert forall|j: int| 0 <= j < self.path@.len() implies self.frame_wf(j) by {
                        if j < pre.path@.len() {
                            assert(pre.frame_wf(j));
                        }
                    }
                }
                true
            },
        }
    }

    /// Moves the cursor back to the parent and returns the selector that was
    /// used to leave it (whose position restores the prior selection); at
    /// the root this is a no-op returning `None`.
    pub fn ascend(&mut self) -> (r: Option<Segment>)
        requires
            old(self).wf(),
        ensures
            final(self).wf(),
            JsonPath::ascend_rel(*old(self), *final(self), r),
    {
        let ghost pre = *self;
        match self.path.pop() {
            None => None,
            Some(f) => {
                self.cur = f.node;
                proof {
                    assert(pre.frame_wf(pre.path@.len() - 1));
                    assert forall|j: int| 0 <= j < self.path@.len() implies self.frame_wf(j) by {
                        assert(pre.frame_wf(j));
                    }
                }
                Some(f.sel)
            },
        }
    }

    /// The breadcrumb: the selectors of the frames from the root to the
    /// current node's parent, in that order.
    pub fn names(&self) -> (r: Vec<Segment>)
        ensures
            r@.len() == self.path@.len(),
            forall|j: int| 0 <= j < r@.len() ==> r@[j] == self.path@[j].sel,
    {
        let mut r: Vec<Segment> = Vec::new();
        let mut k: usize = 0;
        while k < self.path.len()
            invariant
                k <= self.path@.len(),
                r@.len() == k,
                forall|j: int| 0 <= j < k ==> r@[j] == self.path@[j].sel,
            decreases self.path@.len() - k,
        {
            r.push(self.path[k].sel.clone());
            k += 1;
        }
        r
    }

    /// The selectors of the current node's children, in display order.
    #[verifier::loop_isolation(false)]
    pub fn children_labels(&self) -> (r: Vec<Segment>)
        requires
            self.wf(),
        ensures
            r@.len() == self.cur_node().spec_child_count(),
            forall|j: int| 0 <= j < r@.len() ==> r@[j] == spec_selector(self.cur_node(), j),
    {
        let mut r: Vec<Segment> = Vec::new();
        match &self.doc.nodes[self.cur] {
            Value::Array(cs) => {
                let mut k: usize = 0;
                while k < cs.len()
                    invariant
                        k <= cs@.len(),
                        r@.len() == k,
                        forall|j: int| 0 <= j < k ==> r@[j] == spec_selector(self.cur_node(), j),
                    decreases cs@.len() - k,
                {
                    r.push(Segment::Index(k));
                    k += 1;
                }
            },
            Value::Object(fs) => {
                let mut k: usize = 0;
                while k < fs.len()
                    invariant
                        k <= fs@.len(),
                        r@.len() == k,
                        forall|j: int| 0 <= j < k ==> r@[j] == spec_selector(self.cur_node(), j),
                    decreases fs@.len() - k,
                {
                    let key = fs[k].0.clone();
                    r.push(Segment::Name(k, key));
                    k += 1;
                }
            },
            _ => {},
        }
        r
    }

    /// The textual form of the current node when it is a scalar, to be shown
    /// in place of a child list; `None` when it is a container.
    pub fn cursor_text(&self) -> (r: Option<String>)
        requires
            self.wf(),
        ensures
            match r {
                Some(s) => self.cur_node().spec_scalar_text() == Some(s@),
                None => self.cur_node().spec_scalar_text() is None,
            },
    {
        match &self.doc.nodes[self.cur] {
            Value::Null => Some(String::from_str("null")),
            Value::Bool(b) => Some(
                String::from_str(
                    if *b {
                        "true"
                    } else {
                        "false"
                    },
                ),
            ),
            Value::Number(s) => Some(s.clone()),
            Value::Text(s) => Some(s.clone()),
            _ => None,
        }
    }

    /// The new selection after moving by `delta` from `current`, clamped to
    /// the current node's children. The engine does not own the selection;
    /// the caller keeps it so that `ascend` can restore an earlier one.
    pub fn move_selection(&self, current: usize, delta: i32) -> (r: usize)
        requires
            self.wf(),
            delta == 1i32 || delta == -1i32,
        ensures
            r as int == spec_move(self.cur_node().spec_child_count(), current as int, delta as int),
    {
        let count = self.field_count();
        let hi: usize = if count == 0 {
            0
        } else {
            count - 1
        };
        if delta == 1i32 {
            if current < hi {
                current + 1
            } else {
                hi
            }
        } else {
            if current == 0 {
                0
            } else {
                let c = current - 1;
                if c > hi {
                    hi
                } else {
                    c
                }
            }
        }
    }
}

} // verus!
