//! Laws of the navigation engine, stated over the step relations that the
//! engine's operations are proved to satisfy.

use crate::commands::{Command, Viewer};
use crate::segment::Segment;
use crate::zipper::{spec_move, spec_replay, Frame, JsonPath};
use vstd::prelude::*;

verus! {

/// From frame `k`'s node, replaying the remaining selectors reaches the
/// cursor.
proof fn lemma_replay_suffix(p: JsonPath, k: int)
    requires
        p.wf(),
        0 <= k <= p.path@.len(),
    ensures
        spec_replay(
            p.doc,
            if k < p.path@.len() {
                p.path@[k].node
            } else {
                p.cur
            },
            p.path@.map_values(|f: Frame| f.sel).skip(k),
        ) == p.cur,
    decreases p.path@.len() - k,
{
    let sels = p.path@.map_values(|f: Frame| f.sel);
    if k < p.path@.len() {
        assert(p.frame_wf(k));
        lemma_replay_suffix(p, k + 1);
        assert(sels.skip(k).drop_first() =~= sels.skip(k + 1));
        assert(sels.skip(k)[0] == sels[k]);
        assert(sels[k] == p.path@[k].sel);
    } else {
        assert(sels.skip(k).len() == 0);
    }
}

/// The cursor is always reachable by replaying the path stack's selectors
/// from the root: the breadcrumb is never stale.
pub proof fn lemma_replay_reaches_cursor(p: JsonPath)
    requires
        p.wf(),
    ensures
        spec_replay(p.doc, p.doc.spec_root(), p.path@.map_values(|f: Frame| f.sel)) == p.cur,
{
    let sels = p.path@.map_values(|f: Frame| f.sel);
    assert(sels.skip(0) =~= sels);
    lemma_replay_suffix(p, 0);
}

/// Round trip: descending to an existing child and immediately ascending
/// restores the cursor and the whole path stack, and the popped selector
/// carries the index that was descended to, so the caller's selection is
/// restored exactly.
pub proof fn lemma_descend_ascend_round_trip(
    pre: JsonPath,
    mid: JsonPath,
    post: JsonPath,
    i: usize,
    sel: Segment,
)
    requires
        pre.wf(),
        (i as int) < pre.cur_node().spec_child_count(),
        JsonPath::descend_rel(pre, mid, i, true),
        JsonPath::ascend_rel(mid, post, Some(sel)),
    ensures
        post.cur == pre.cur,
        post.path@ == pre.path@,
        post.doc == pre.doc,
        sel.spec_index() == i,
{
    assert(post.path@ =~= pre.path@);
}

/// Round trip at the state-machine level: with the selection on an existing
/// child, applying `Descend` and then `Ascend` restores the engine's cursor
/// and path stack and brings the selection back to where it was.
pub proof fn lemma_viewer_round_trip(pre: Viewer, mid: Viewer, post: Viewer)
    requires
        pre.wf(),
        (pre.pos as int) < pre.engine.cur_node().spec_child_count(),
        Viewer::apply_rel(pre, mid, Command::Descend, false),
        Viewer::apply_rel(mid, post, Command::Ascend, false),
    ensures
        post.engine.cur == pre.engine.cur,
        post.engine.path@ == pre.engine.path@,
        post.engine.doc == pre.engine.doc,
        post.pos == pre.pos,
{
    lemma_descend_ascend_round_trip(
        pre.engine,
        mid.engine,
        post.engine,
        pre.pos,
        mid.engine.path@.last().sel,
    );
}

/// Root idempotence, one step: ascending with an empty path stack returns
/// `None` and changes nothing.
pub proof fn lemma_ascend_at_root_is_noop(pre: JsonPath, post: JsonPath, r: Option<Segment>)
    requires
        pre.path@.len() == 0,
        JsonPath::ascend_rel(pre, post, r),
    ensures
        r is None,
        post.cur == pre.cur,
        post.path@ == pre.path@,
        post.doc == pre.doc,
{
}

/// Root idempotence, any number of times: along any chain of states each
/// related to the next by an ascend, starting at depth 0, every state keeps
/// the original cursor and (empty) path stack.
pub proof fn lemma_ascend_at_root_any_times(
    states: Seq<JsonPath>,
    rets: Seq<Option<Segment>>,
    j: int,
)
    requires
        0 <= j < states.len(),
        rets.len() + 1 == states.len(),
        states[0].path@.len() == 0,
        forall|a: int| 0 <= a < rets.len() ==> #[trigger] JsonPath::ascend_rel(
            states[a],
            states[a + 1],
            rets[a],
        ),
    ensures
        states[j].cur == states[0].cur,
        states[j].path@ == states[0].path@,
        states[j].doc == states[0].doc,
    decreases j,
{
    if j > 0 {
        lemma_ascend_at_root_any_times(states, rets, j - 1);
        assert(JsonPath::ascend_rel(states[j - 1], states[j - 1 + 1], rets[j - 1]));
        lemma_ascend_at_root_is_noop(states[j - 1], states[j], rets[j - 1]);
    }
}

/// Clamping: with `k` children, moving up from selection 0 stays at 0, and
/// moving down from selection `k - 1` stays at `k - 1`.
pub proof fn lemma_move_selection_clamps(k: nat)
    ensures
        spec_move(k, 0, -1) == 0,
        k > 0 ==> spec_move(k, k - 1, 1) == k - 1,
{
}

/// Scalar terminality: descending on a cursor over a scalar fails for every
/// index and changes nothing, since scalars have no children.
pub proof fn lemma_scalar_descend_is_noop(pre: JsonPath, post: JsonPath, i: usize, moved: bool)
    requires
        pre.wf(),
        pre.cur_node() is Null || pre.cur_node() is Bool || pre.cur_node() is Number
            || pre.cur_node() is Text,
        JsonPath::descend_rel(pre, post, i, moved),
    ensures
        !moved,
        post.cur == pre.cur,
        post.path@ == pre.path@,
        post.doc == pre.doc,
{
}

} // verus!
