//! The ordering guarantees of the subsystem, stated and proved once.
//!
//! Each lemma here is a promise a caller may rely on: how batch base
//! priorities order whole batches against each other, how append order
//! within one batch survives into the dispatch order, and that a replay
//! of an empty buffer dispatches nothing.

use vstd::prelude::*;
use vstd::seq_lib::group_seq_lib_default;

use crate::batch::stamped;
use crate::command::DrawCommand;
use crate::replay::entries_with_priority;
use crate::replay::is_replay_order;
use crate::replay::lemma_no_priority_filters_empty;
use crate::replay::lemma_priority_filter_mem;
use crate::replay::lemma_priority_filter_subset;
use crate::replay::lemma_replay_order_unique;
use crate::replay::sorted_by_priority;

verus! {

/// Replaying an empty buffer dispatches nothing. Together with the
/// replay step's own promise to leave the buffer empty, this means a
/// second replay with no intervening submission dispatches zero
/// commands.
pub proof fn lemma_replay_of_empty_dispatches_nothing(out: Seq<(usize, DrawCommand)>)
    requires
        is_replay_order(out, Seq::<(usize, DrawCommand)>::empty()),
    ensures
        out == Seq::<(usize, DrawCommand)>::empty(),
{
    assert(out =~= Seq::<(usize, DrawCommand)>::empty());
}

/// Replay is deterministic: any two dispatch orders that replay the same
/// buffer contents are equal.
pub proof fn lemma_replay_deterministic(
    a: Seq<(usize, DrawCommand)>,
    b: Seq<(usize, DrawCommand)>,
    inp: Seq<(usize, DrawCommand)>,
)
    requires
        is_replay_order(a, inp),
        is_replay_order(b, inp),
    ensures
        a == b,
{
    assert forall|p: usize|
        #![trigger entries_with_priority(a, p)]
        #![trigger entries_with_priority(b, p)]
        entries_with_priority(a, p) == entries_with_priority(b, p) by {
        assert(entries_with_priority(a, p) == entries_with_priority(inp, p));
        assert(entries_with_priority(b, p) == entries_with_priority(inp, p));
    }
    lemma_replay_order_unique(a, b);
}

/// Batches whose stamped priority ranges do not overlap replay strictly
/// in base-priority order, whichever batch was submitted first: the
/// dispatch order is exactly the lower-based batch's commands in append
/// order, then the higher-based batch's. The ranges are disjoint when
/// `p1 + b1.len() <= p2`; if they overlap, commands of the two batches
/// may interleave and no such guarantee exists.
pub proof fn lemma_lower_base_replays_first(
    out: Seq<(usize, DrawCommand)>,
    b1: Seq<DrawCommand>,
    p1: usize,
    b2: Seq<DrawCommand>,
    p2: usize,
)
    requires
        p1 + b1.len() <= p2,
        p2 + b2.len() <= usize::MAX,
        is_replay_order(out, stamped(b1, p1) + stamped(b2, p2)) || is_replay_order(
            out,
            stamped(b2, p2) + stamped(b1, p1),
        ),
    ensures
        out == stamped(b1, p1) + stamped(b2, p2),
        forall|i: int| 0 <= i < b1.len() ==> out[i] == (((p1 + i) as usize, b1[i])),
        forall|i: int|
            0 <= i < b2.len() ==> out[b1.len() + i] == (((p2 + i) as usize, b2[i])),
{
    broadcast use group_seq_lib_default;

    let s1 = stamped(b1, p1);
    let s2 = stamped(b2, p2);
    let target = s1 + s2;
    assert(sorted_by_priority(target)) by {
        assert forall|i: int, j: int|
            #![trigger target[i], target[j]]
            0 <= i < j < target.len() implies target[i].0 <= target[j].0 by {
            if i < s1.len() {
                assert(target[i] == s1[i]);
            } else {
                assert(target[i] == s2[i - s1.len()]);
            }
            if j < s1.len() {
                assert(target[j] == s1[j]);
            } else {
                assert(target[j] == s2[j - s1.len()]);
            }
        }
    }
    assert forall|p: usize|
        #![trigger entries_with_priority(s1 + s2, p)]
        #![trigger entries_with_priority(s2 + s1, p)]
        entries_with_priority(s1 + s2, p) == entries_with_priority(s2 + s1, p) by {
        assert(entries_with_priority(s1 + s2, p) == entries_with_priority(s1, p)
            + entries_with_priority(s2, p));
        assert(entries_with_priority(s2 + s1, p) == entries_with_priority(s2, p)
            + entries_with_priority(s1, p));
        if p >= p2 {
            lemma_no_priority_filters_empty(s1, p);
        } else {
            lemma_no_priority_filters_empty(s2, p);
        }
    }
    if is_replay_order(out, s1 + s2) {
        lemma_replay_order_unique(out, target);
    } else {
        lemma_replay_order_unique(out, target);
    }
    assert forall|i: int| 0 <= i < b1.len() implies out[i] == (((p1 + i) as usize, b1[i])) by {
        assert(target[i] == s1[i]);
    }
    assert forall|i: int|
        0 <= i < b2.len() implies out[b1.len() + i] == (((p2 + i) as usize, b2[i])) by {
        assert(target[b1.len() + i] == s2[i]);
    }
}

/// Append order within one batch survives into the dispatch order: each
/// command of a submitted batch appears in the replay output under its
/// stamped priority, and because the stamps within a batch strictly
/// increase with the append index, every entry stamped for an earlier
/// command dispatches before every entry stamped for a later one. The
/// surrounding buffer contents (`before`, `after`) are arbitrary.
pub proof fn lemma_batch_order_preserved(
    out: Seq<(usize, DrawCommand)>,
    before: Seq<(usize, DrawCommand)>,
    b: Seq<DrawCommand>,
    z: usize,
    after: Seq<(usize, DrawCommand)>,
)
    requires
        z + b.len() <= usize::MAX,
        is_replay_order(out, before + stamped(b, z) + after),
    ensures
        forall|i: int| 0 <= i < b.len() ==> out.contains((((z + i) as usize, b[i]))),
        forall|k1: int, k2: int|
            #![trigger out[k1], out[k2]]
            0 <= k1 < out.len() && 0 <= k2 < out.len() && out[k1].0 < out[k2].0 ==> k1 < k2,
{
    let inp = before + stamped(b, z) + after;
    assert forall|i: int| 0 <= i < b.len() implies out.contains((((z + i) as usize, b[i]))) by {
        let e = (((z + i) as usize, b[i]));
        let pos = before.len() + i;
        assert(inp[pos] == e) by {
            assert((before + stamped(b, z))[pos] == stamped(b, z)[i]);
        }
        let p = ((z + i) as usize);
        lemma_priority_filter_mem(inp, p, pos as int);
        assert(entries_with_priority(out, p).contains(e));
        lemma_priority_filter_subset(out, p);
    }
    assert forall|k1: int, k2: int|
        #![trigger out[k1], out[k2]]
        0 <= k1 < out.len() && 0 <= k2 < out.len() && out[k1].0 < out[k2].0 implies k1 < k2 by {
        if k2 < k1 {
            assert(out[k2].0 <= out[k1].0);
        }
    }
}

} // verus!
