//! The flush/replay step: ordering the frame's commands for dispatch.
//!
//! Replay stably sorts the buffered `(priority, command)` pairs by
//! priority and hands them back as the dispatch order, leaving the buffer
//! empty. Stability matters: commands that share a priority must replay
//! in submission order. The result is specified relationally: it is
//! sorted, and for every priority it carries exactly the entries the
//! buffer held at that priority, in their original order. Those two
//! facts pin the dispatch order down completely.

use vstd::prelude::*;
use vstd::seq_lib::group_seq_lib_default;

use crate::buffer::CommandBuffer;
use crate::command::DrawCommand;

verus! {

/// Entries in non-decreasing priority order.
pub open spec fn sorted_by_priority(s: Seq<(usize, DrawCommand)>) -> bool {
    forall|i: int, j: int|
        #![trigger s[i], s[j]]
        0 <= i < j < s.len() ==> s[i].0 <= s[j].0
}

/// The subsequence of entries tagged with priority `p`, in order.
pub open spec fn entries_with_priority(
    s: Seq<(usize, DrawCommand)>,
    p: usize,
) -> Seq<(usize, DrawCommand)> {
    s.filter(|e: (usize, DrawCommand)| e.0 == p)
}

/// What replay dispatches for a buffer holding `inp`: `out` is `inp`
/// stably sorted by priority. Sortedness together with per-priority
/// equality of the tagged subsequences determines `out` uniquely
/// (`lemma_replay_order_unique`).
pub open spec fn is_replay_order(
    out: Seq<(usize, DrawCommand)>,
    inp: Seq<(usize, DrawCommand)>,
) -> bool {
    &&& out.len() == inp.len()
    &&& sorted_by_priority(out)
    &&& forall|p: usize|
        #![trigger entries_with_priority(out, p)]
        #![trigger entries_with_priority(inp, p)]
        entries_with_priority(out, p) == entries_with_priority(inp, p)
}

/// A sequence with no entry at priority `p` filters to nothing at `p`.
pub proof fn lemma_no_priority_filters_empty(s: Seq<(usize, DrawCommand)>, p: usize)
    requires
        forall|k: int| 0 <= k < s.len() ==> (#[trigger] s[k]).0 != p,
    ensures
        entries_with_priority(s, p) == Seq::<(usize, DrawCommand)>::empty(),
    decreases s.len(),
{
    reveal(Seq::filter);
    if s.len() == 0 {
        assert(entries_with_priority(s, p) =~= Seq::<(usize, DrawCommand)>::empty());
    } else {
        lemma_no_priority_filters_empty(s.drop_last(), p);
        assert(s.last().0 != p);
        assert(entries_with_priority(s, p) =~= Seq::<(usize, DrawCommand)>::empty());
    }
}

/// What a single entry filters to at priority `p`.
pub proof fn lemma_priority_filter_singleton(x: (usize, DrawCommand), p: usize)
    ensures
        x.0 == p ==> entries_with_priority(seq![x], p) == seq![x],
        x.0 != p ==> entries_with_priority(seq![x], p) == Seq::<(usize, DrawCommand)>::empty(),
{
    reveal(Seq::filter);
    let s = seq![x];
    assert(s.drop_last() =~= Seq::<(usize, DrawCommand)>::empty());
    lemma_no_priority_filters_empty(s.drop_last(), p);
    assert(s.last() == x);
    if x.0 == p {
        assert(entries_with_priority(s, p) =~= seq![x]);
    } else {
        assert(entries_with_priority(s, p) =~= Seq::<(usize, DrawCommand)>::empty());
    }
}

/// Every entry of the priority-`p` subsequence occurs in the sequence it
/// was filtered from.
pub proof fn lemma_priority_filter_subset(s: Seq<(usize, DrawCommand)>, p: usize)
    ensures
        forall|e: (usize, DrawCommand)|
            entries_with_priority(s, p).contains(e) ==> #[trigger] s.contains(e),
    decreases s.len(),
{
    reveal(Seq::filter);
    if s.len() > 0 {
        lemma_priority_filter_subset(s.drop_last(), p);
        assert forall|e: (usize, DrawCommand)|
            entries_with_priority(s, p).contains(e) implies #[trigger] s.contains(e) by {
            let sub = entries_with_priority(s.drop_last(), p);
            if sub.contains(e) {
                assert(s.drop_last().contains(e));
                let k = choose|k: int| 0 <= k < s.drop_last().len() && s.drop_last()[k] == e;
                assert(s[k] == e);
            } else {
                assert(e == s.last());
                assert(s[s.len() - 1] == e);
            }
        }
    }
}

/// An entry tagged `p` occurs in the priority-`p` subsequence.
pub proof fn lemma_priority_filter_mem(s: Seq<(usize, DrawCommand)>, p: usize, k: int)
    requires
        0 <= k < s.len(),
        s[k].0 == p,
    ensures
        entries_with_priority(s, p).contains(s[k]),
    decreases s.len(),
{
    reveal(Seq::filter);
    let sub = entries_with_priority(s.drop_last(), p);
    if k == s.len() - 1 {
        assert(entries_with_priority(s, p) == sub.push(s.last()));
        assert(entries_with_priority(s, p)[sub.len() as int] == s[k]);
    } else {
        lemma_priority_filter_mem(s.drop_last(), p, k);
        let m = choose|m: int| 0 <= m < sub.len() && sub[m] == s.drop_last()[k];
        if s.last().0 == p {
            assert(entries_with_priority(s, p) == sub.push(s.last()));
            assert(entries_with_priority(s, p)[m] == s[k]);
        } else {
            assert(entries_with_priority(s, p) == sub);
        }
    }
}

/// A sequence whose head carries priority `p` filters, at `p`, to its
/// head followed by what the tail filters to.
pub proof fn lemma_priority_filter_head(s: Seq<(usize, DrawCommand)>, p: usize)
    requires
        s.len() > 0,
    ensures
        s[0].0 == p ==> entries_with_priority(s, p) == seq![s[0]] + entries_with_priority(
            s.drop_first(),
            p,
        ),
        s[0].0 != p ==> entries_with_priority(s, p) == entries_with_priority(s.drop_first(), p),
{
    broadcast use group_seq_lib_default;

    assert(s =~= seq![s[0]] + s.drop_first());
    lemma_priority_filter_singleton(s[0], p);
    assert(entries_with_priority(seq![s[0]] + s.drop_first(), p) == entries_with_priority(
        seq![s[0]],
        p,
    ) + entries_with_priority(s.drop_first(), p));
    if s[0].0 != p {
        assert(entries_with_priority(s, p) =~= entries_with_priority(s.drop_first(), p));
    }
}

/// Two sequences that are both sorted by priority and agree on every
/// per-priority subsequence are equal: a stable sort's output is unique.
pub proof fn lemma_replay_order_unique(a: Seq<(usize, DrawCommand)>, b: Seq<(usize, DrawCommand)>)
    requires
        sorted_by_priority(a),
        sorted_by_priority(b),
        a.len() == b.len(),
        forall|p: usize|
            #![trigger entries_with_priority(a, p)]
            #![trigger entries_with_priority(b, p)]
            entries_with_priority(a, p) == entries_with_priority(b, p),
    ensures
        a == b,
    decreases a.len(),
{
    if a.len() == 0 {
        assert(a =~= b);
    } else {
        let q = a[0].0;
        let r = b[0].0;
        lemma_priority_filter_head(a, q);
        lemma_priority_filter_head(b, r);
        lemma_priority_filter_subset(a, r);
        lemma_priority_filter_subset(b, q);
        // b holds an entry at priority q, so b's minimal head key is at most q;
        // symmetrically q is at most r.
        assert(entries_with_priority(b, q).contains(a[0])) by {
            assert(entries_with_priority(a, q)[0] == a[0]);
            assert(entries_with_priority(a, q).contains(a[0]));
        }
        assert(b.contains(a[0]));
        let kb = choose|k: int| 0 <= k < b.len() && b[k] == a[0];
        assert(r <= q) by {
            if kb > 0 {
                assert(b[0].0 <= b[kb].0);
            }
        }
        assert(entries_with_priority(a, r).contains(b[0])) by {
            assert(entries_with_priority(b, r)[0] == b[0]);
            assert(entries_with_priority(b, r).contains(b[0]));
        }
        assert(a.contains(b[0]));
        let ka = choose|k: int| 0 <= k < a.len() && a[k] == b[0];
        assert(q <= r) by {
            if ka > 0 {
                assert(a[0].0 <= a[ka].0);
            }
        }
        assert(q == r);
        assert(a[0] == b[0]) by {
            assert(entries_with_priority(a, q)[0] == a[0]);
            assert(entries_with_priority(b, q)[0] == b[0]);
        }
        let a1 = a.drop_first();
        let b1 = b.drop_first();
        assert forall|p: usize|
            #![trigger entries_with_priority(a1, p)]
            #![trigger entries_with_priority(b1, p)]
            entries_with_priority(a1, p) == entries_with_priority(b1, p) by {
            lemma_priority_filter_head(a, p);
            lemma_priority_filter_head(b, p);
            if a[0].0 == p {
                let u = entries_with_priority(a1, p);
                let w = entries_with_priority(b1, p);
                assert(seq![a[0]] + u == seq![b[0]] + w);
                assert(u =~= w) by {
                    assert forall|k: int| 0 <= k < u.len() implies u[k] == w[k] by {
                        assert((seq![a[0]] + u)[k + 1] == u[k]);
                        assert((seq![b[0]] + w)[k + 1] == w[k]);
                    }
                }
            }
        }
        assert(sorted_by_priority(a1)) by {
            assert forall|i: int, j: int|
                #![trigger a1[i], a1[j]]
                0 <= i < j < a1.len() implies a1[i].0 <= a1[j].0 by {
                assert(a1[i] == a[i + 1]);
                assert(a1[j] == a[j + 1]);
            }
        }
        assert(sorted_by_priority(b1)) by {
            assert forall|i: int, j: int|
                #![trigger b1[i], b1[j]]
                0 <= i < j < b1.len() implies b1[i].0 <= b1[j].0 by {
                assert(b1[i] == b[i + 1]);
                assert(b1[j] == b[j + 1]);
            }
        }
        lemma_replay_order_unique(a1, b1);
        assert(a =~= b) by {
            assert forall|k: int| 0 <= k < a.len() implies a[k] == b[k] by {
                if k > 0 {
                    assert(a1[k - 1] == a[k]);
                    assert(b1[k - 1] == b[k]);
                }
            }
        }
    }
}

/// Moving an entry left, past a block of entries that all carry a
/// different (strictly greater) priority, changes no per-priority
/// subsequence.
proof fn lemma_rotate_preserves_filters(
    a: Seq<(usize, DrawCommand)>,
    b: Seq<(usize, DrawCommand)>,
    x: (usize, DrawCommand),
    c: Seq<(usize, DrawCommand)>,
    p: usize,
)
    requires
        forall|k: int| 0 <= k < b.len() ==> (#[trigger] b[k]).0 != x.0,
    ensures
        entries_with_priority(a + seq![x] + b + c, p) == entries_with_priority(
            a + b + seq![x] + c,
            p,
        ),
{
    broadcast use group_seq_lib_default;

    lemma_priority_filter_singleton(x, p);
    if x.0 == p {
        lemma_no_priority_filters_empty(b, p);
    }
    assert(entries_with_priority(a + seq![x] + b + c, p) =~= entries_with_priority(
        a + b + seq![x] + c,
        p,
    ));
}

/// Stable insertion sort of the buffer entries by priority.
pub fn sort_by_priority(v: &mut Vec<(usize, DrawCommand)>)
    ensures
        is_replay_order(final(v)@, old(v)@),
{
    let ghost orig = v@;
    if v.len() < 2 {
        return;
    }
    let mut i: usize = 1;
    while i < v.len()
        invariant
            1 <= i <= v@.len(),
            v@.len() == orig.len(),
            sorted_by_priority(v@.take(i as int)),
            forall|p: usize|
                #![trigger entries_with_priority(v@, p)]
                entries_with_priority(v@, p) == entries_with_priority(orig, p),
        decreases v@.len() - i,
    {
        let ghost s = v@;
        let key = v[i].0;
        let mut j: usize = i;
        while j > 0 && v[j - 1].0 > key
            invariant
                j <= i < v@.len(),
                v@ == s,
                key == s[i as int].0,
                forall|k: int| j <= k < i ==> (#[trigger] s[k]).0 > key,
            decreases j,
        {
            j = j - 1;
        }
        if j < i {
            let x = v.remove(i);
            v.insert(j, x);
            proof {
                let ghost a = s.subrange(0, j as int);
                let ghost b = s.subrange(j as int, i as int);
                let ghost c = s.subrange(i + 1, s.len() as int);
                assert(s =~= a + b + seq![x] + c);
                assert(v@ =~= a + seq![x] + b + c);
                assert forall|p: usize| #[trigger]
                    entries_with_priority(v@, p) == entries_with_priority(orig, p) by {
                    lemma_rotate_preserves_filters(a, b, x, c, p);
                    assert(entries_with_priority(s, p) == entries_with_priority(orig, p));
                }
                assert forall|k1: int, k2: int|
                    #![trigger v@[k1], v@[k2]]
                    0 <= k1 < k2 < i + 1 implies v@[k1].0 <= v@[k2].0 by {
                    if k2 < j {
                        assert(v@[k1] == s[k1] && v@[k2] == s[k2]);
                        assert(s.take(i as int)[k1] == s[k1]);
                        assert(s.take(i as int)[k2] == s[k2]);
                    } else if k2 == j {
                        assert(v@[k2] == x);
                        assert(v@[k1] == s[k1]);
                        assert(s.take(i as int)[k1] == s[k1]);
                        assert(s.take(i as int)[j - 1] == s[j - 1]);
                        assert(s[k1].0 <= s[j - 1].0);
                        assert(s[j - 1].0 <= key);
                    } else {
                        assert(v@[k2] == s[k2 - 1]);
                        if k1 < j {
                            assert(v@[k1] == s[k1]);
                            assert(s.take(i as int)[k1] == s[k1]);
                            assert(s.take(i as int)[k2 - 1] == s[k2 - 1]);
                        } else if k1 == j {
                            assert(v@[k1] == x);
                            assert(s[k2 - 1].0 > key);
                        } else {
                            assert(v@[k1] == s[k1 - 1]);
                            assert(s.take(i as int)[k1 - 1] == s[k1 - 1]);
                            assert(s.take(i as int)[k2 - 1] == s[k2 - 1]);
                        }
                    }
                }
                assert(sorted_by_priority(v@.take(i + 1)));
            }
        } else {
            proof {
                assert forall|k1: int, k2: int|
                    #![trigger v@[k1], v@[k2]]
                    0 <= k1 < k2 < i + 1 implies v@[k1].0 <= v@[k2].0 by {
                    if k2 == i {
                        if j > 0 {
                            assert(s.take(i as int)[k1] == s[k1]);
                            assert(s.take(i as int)[j - 1] == s[j - 1]);
                            assert(s[k1].0 <= s[j - 1].0);
                        }
                    } else {
                        assert(s.take(i as int)[k1] == s[k1]);
                        assert(s.take(i as int)[k2] == s[k2]);
                    }
                }
                assert(sorted_by_priority(v@.take(i + 1)));
            }
        }
        i = i + 1;
    }
    proof {
        assert(v@.take(v@.len() as int) =~= v@);
    }
}

/// Drains the buffer and returns its entries stably sorted by priority:
/// the frame's dispatch order. The caller applies each returned command,
/// in order, to the display; the buffer is left empty for the next
/// frame.
pub fn render_draw_buffer(buffer: &mut CommandBuffer) -> (r: Vec<(usize, DrawCommand)>)
    ensures
        is_replay_order(r@, old(buffer)@),
        final(buffer)@ == Seq::<(usize, DrawCommand)>::empty(),
{
    let mut v = buffer.take_entries();
    sort_by_priority(&mut v);
    v
}

} // verus!
