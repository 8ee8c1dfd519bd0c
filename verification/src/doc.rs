//! The document tree, stored in an arena.
//!
//! A [`Doc`] owns a vector of nodes; a node refers to its children by their
//! indices in that vector. A document is well formed when every such index
//! is in range. Numbers keep only their textual form here: the engine never
//! computes with them, it only displays them.

use vstd::prelude::*;

verus! {

/// One node of the document tree.
///
/// Children of `Array` and `Object` nodes are arena indices into the owning
/// [`Doc`]. Object fields carry their key and appear in declaration order.
pub enum Value {
    Null,
    Bool(bool),
    /// A number, kept as the text it is displayed as.
    Number(String),
    Text(String),
    Array(Vec<usize>),
    Object(Vec<(String, usize)>),
}

/// The document arena. The node added last is the root.
pub struct Doc {
    pub nodes: Vec<Value>,
}

impl Value {
    /// How many children a node has; scalars have none.
    pub open spec fn spec_child_count(self) -> nat {
        match self {
            Value::Array(cs) => cs@.len(),
            Value::Object(fs) => fs@.len(),
            _ => 0,
        }
    }

    /// The arena index of the `i`-th child.
    pub open spec fn spec_child_id(self, i: int) -> usize
        recommends
            0 <= i < self.spec_child_count(),
    {
        match self {
            Value::Array(cs) => cs@[i],
            Value::Object(fs) => fs@[i].1,
            _ => 0,
        }
    }

    /// The textual form of a scalar node; `None` for containers, which are
    /// shown as child lists instead.
    pub open spec fn spec_scalar_text(self) -> Option<Seq<char>> {
        match self {
            Value::Null => Some("null"@),
            Value::Bool(b) => if b {
                Some("true"@)
            } else {
                Some("false"@)
            },
            Value::Number(s) => Some(s@),
            Value::Text(s) => Some(s@),
            _ => None,
        }
    }

    /// Whether every child index points into an arena of `n` nodes.
    pub open spec fn wf_in(self, n: nat) -> bool {
        match self {
            Value::Array(cs) => forall|j: int| 0 <= j < cs@.len() ==> (#[trigger] cs@[j]) < n,
            Value::Object(fs) => forall|j: int|
                0 <= j < fs@.len() ==> (#[trigger] fs@[j]).1 < n,
            _ => true,
        }
    }

    /// A node with children staying in range stays in range in a larger arena.
    proof fn lemma_wf_in_widen(self, n: nat, m: nat)
        requires
            self.wf_in(n),
            n <= m,
        ensures
            self.wf_in(m),
    {
    }
}

impl Doc {
    /// Every node's child indices point into the arena.
    pub open spec fn wf(self) -> bool {
        forall|i: int| 0 <= i < self.nodes@.len() ==> (#[trigger] self.nodes@[i]).wf_in(
            self.nodes@.len(),
        )
    }

    /// The root is the node added last.
    pub open spec fn spec_root(self) -> usize
        recommends
            self.nodes@.len() > 0,
    {
        (self.nodes@.len() - 1) as usize
    }

    /// An empty arena, to be filled children-first.
    pub fn new() -> (d: Doc)
        ensures
            d.nodes@ =~= Seq::<Value>::empty(),
            d.wf(),
    {
        Doc { nodes: Vec::new() }
    }

    /// The number of nodes in the arena.
    pub fn len(&self) -> (n: usize)
        ensures
            n == self.nodes@.len(),
    {
        self.nodes.len()
    }

    /// The arena index of the root.
    pub fn root_id(&self) -> (r: usize)
        requires
            self.nodes@.len() > 0,
        ensures
            r == self.spec_root(),
    {
        self.nodes.len() - 1
    }

    /// Decides well-formedness: every child index of every node is in range.
    #[verifier::loop_isolation(false)]
    pub fn is_well_formed(&self) -> (r: bool)
        ensures
            r == self.wf(),
    {
        let n = self.nodes.len();
        let mut i: usize = 0;
        while i < n
            invariant
                i <= n,
                forall|a: int| 0 <= a < i ==> (#[trigger] self.nodes@[a]).wf_in(n as nat),
            decreases n - i,
        {
            if !node_in_range(&self.nodes[i], n) {
                return false;
            }
            i += 1;
        }
        true
    }

    /// Appends a null node; returns its index.
    pub fn add_null(&mut self) -> (id: usize)
        ensures
            final(self).nodes@ == old(self).nodes@.push(Value::Null),
            id == old(self).nodes@.len(),
            old(self).wf() ==> final(self).wf(),
    {
        let id = self.nodes.len();
        self.nodes.push(Value::Null);
        proof {
            if old(self).wf() {
                lemma_push_keeps_wf(*old(self), *self, self.nodes@.last());
            }
        }
        id
    }

    /// Appends a boolean node; returns its index.
    pub fn add_bool(&mut self, b: bool) -> (id: usize)
        ensures
            final(self).nodes@ == old(self).nodes@.push(Value::Bool(b)),
            id == old(self).nodes@.len(),
            old(self).wf() ==> final(self).wf(),
    {
        let id = self.nodes.len();
        self.nodes.push(Value::Bool(b));
        proof {
            if old(self).wf() {
                lemma_push_keeps_wf(*old(self), *self, self.nodes@.last());
            }
        }
        id
    }

    /// Appends a number node, kept as its display text; returns its index.
    pub fn add_number(&mut self, text: String) -> (id: usize)
        ensures
            final(self).nodes@ == old(self).nodes@.push(Value::Number(text)),
            id == old(self).nodes@.len(),
            old(self).wf() ==> final(self).wf(),
    {
        let id = self.nodes.len();
        self.nodes.push(Value::Number(text));
        proof {
            if old(self).wf() {
                lemma_push_keeps_wf(*old(self), *self, self.nodes@.last());
            }
        }
        id
    }

    /// Appends a string node; returns its index.
    pub fn add_text(&mut self, text: String) -> (id: usize)
        ensures
            final(self).nodes@ == old(self).nodes@.push(Value::Text(text)),
            id == old(self).nodes@.len(),
            old(self).wf() ==> final(self).wf(),
    {
        let id = self.nodes.len();
        self.nodes.push(Value::Text(text));
        proof {
            if old(self).wf() {
                lemma_push_keeps_wf(*old(self), *self, self.nodes@.last());
            }
        }
        id
    }

    /// Appends an array node whose elements are the already-added nodes
    /// named in `children`; returns its index, or `None` (leaving the arena
    /// unchanged) when some element index is not in range.
    #[verifier::loop_isolation(false)]
    pub fn add_array(&mut self, children: Vec<usize>) -> (id: Option<usize>)
        ensures
            (forall|j: int| 0 <= j < children@.len() ==> (#[trigger] children@[j])
                < old(self).nodes@.len()) ==> (id == Some(old(self).nodes@.len() as usize)
                && final(self).nodes@ == old(self).nodes@.push(Value::Array(children))),
            !(forall|j: int| 0 <= j < children@.len() ==> (#[trigger] children@[j])
                < old(self).nodes@.len()) ==> (id == None::<usize> && *final(self) == *old(self)),
            old(self).wf() ==> final(self).wf(),
    {
        let n = self.nodes.len();
        let mut j: usize = 0;
        while j < children.len()
            invariant
                j <= children@.len(),
                forall|b: int| 0 <= b < j ==> (#[trigger] children@[b]) < n,
            decreases children@.len() - j,
        {
            if children[j] >= n {
                return None;
            }
            j += 1;
        }
        let id = self.nodes.len();
        let node = Value::Array(children);
        self.nodes.push(node);
        proof {
            if old(self).wf() {
                lemma_push_keeps_wf(*old(self), *self, self.nodes@.last());
            }
        }
        Some(id)
    }

    /// Appends an object node whose fields, in declaration order, carry the
    /// given keys and the already-added nodes named by index; returns its
    /// index, or `None` (leaving the arena unchanged) when some field's node
    /// index is not in range.
    #[verifier::loop_isolation(false)]
    pub fn add_object(&mut self, fields: Vec<(String, usize)>) -> (id: Option<usize>)
        ensures
            (forall|j: int| 0 <= j < fields@.len() ==> (#[trigger] fields@[j]).1
                < old(self).nodes@.len()) ==> (id == Some(old(self).nodes@.len() as usize)
                && final(self).nodes@ == old(self).nodes@.push(Value::Object(fields))),
            !(forall|j: int| 0 <= j < fields@.len() ==> (#[trigger] fields@[j]).1
                < old(self).nodes@.len()) ==> (id == None::<usize> && *final(self) == *old(self)),
            old(self).wf() ==> final(self).wf(),
    {
        let n = self.nodes.len();
        let mut j: usize = 0;
        while j < fields.len()
            invariant
                j <= fields@.len(),
                forall|b: int| 0 <= b < j ==> (#[trigger] fields@[b]).1 < n,
            decreases fields@.len() - j,
        {
            if fields[j].1 >= n {
                return None;
            }
            j += 1;
        }
        let id = self.nodes.len();
        let node = Value::Object(fields);
        self.nodes.push(node);
        proof {
            if old(self).wf() {
                lemma_push_keeps_wf(*old(self), *self, self.nodes@.last());
            }
        }
        Some(id)
    }
}

/// Decides whether every child index of `v` points into an arena of `n` nodes.
#[verifier::loop_isolation(false)]
fn node_in_range(v: &Value, n: usize) -> (r: bool)
    ensures
        r == v.wf_in(n as nat),
{
    match v {
        Value::Array(cs) => {
            let mut j: usize = 0;
            while j < cs.len()
                invariant
                    j <= cs@.len(),
                    forall|b: int| 0 <= b < j ==> (#[trigger] cs@[b]) < n,
                decreases cs@.len() - j,
            {
                if cs[j] >= n {
                    return false;
                }
                j += 1;
            }
            true
        },
        Value::Object(fs) => {
            let mut j: usize = 0;
            while j < fs.len()
                invariant
                    j <= fs@.len(),
                    forall|b: int| 0 <= b < j ==> (#[trigger] fs@[b]).1 < n,
                decreases fs@.len() - j,
            {
                if fs[j].1 >= n {
                    return false;
                }
                j += 1;
            }
            true
        },
        _ => true,
    }
}

/// Appending a node whose child indices are in range keeps the arena well
/// formed: the older nodes' indices stay in range in the larger arena.
proof fn lemma_push_keeps_wf(pre: Doc, post: Doc, v: Value)
    requires
        post.nodes@ == pre.nodes@.push(v),
        v.wf_in(post.nodes@.len()),
        pre.wf(),
    ensures
        post.wf(),
{
    assert forall|i: int| 0 <= i < post.nodes@.len() implies (#[trigger] post.nodes@[i]).wf_in(
        post.nodes@.len(),
    ) by {
        if i < pre.nodes@.len() {
            assert(pre.nodes@[i].wf_in(pre.nodes@.len()));
            pre.nodes@[i].lemma_wf_in_widen(pre.nodes@.len(), post.nodes@.len());
        }
    }
}

} // verus!
