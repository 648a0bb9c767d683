//! Layered draw requests and their stable ordering.
//!
//! Overlapping 2D quads are stacked by an integer layer key: a frame's
//! requests are sorted by ascending layer before upload, and requests on
//! the same layer keep their submission order, so paint order within a
//! layer can be read off the call order. The sort's contract pins the
//! result down completely: it is sorted, and for every layer the
//! subsequence of requests on that layer is exactly the input's.

use crate::instance::Vec2Bits;
use vstd::prelude::*;

verus! {

/// A transient per-frame request to draw one textured quad: where, how
/// large, and on which layer it stacks.
#[derive(Clone, Copy, PartialEq, Eq, Structural, Debug)]
pub struct TexturedQuad {
    pub position: Vec2Bits,
    pub dimensions: Vec2Bits,
    pub layer: u32,
}

/// Requests in non-decreasing layer order.
pub open spec fn sorted_by_layer(s: Seq<TexturedQuad>) -> bool {
    forall|i: int, j: int| 0 <= i <= j < s.len() ==> s[i].layer <= s[j].layer
}

/// Holds of the requests on layer `l`.
pub open spec fn layer_pred(l: u32) -> spec_fn(TexturedQuad) -> bool {
    |q: TexturedQuad| q.layer == l
}

/// The subsequence of requests on layer `l`, in their original order.
pub open spec fn with_layer(s: Seq<TexturedQuad>, l: u32) -> Seq<TexturedQuad> {
    s.filter(layer_pred(l))
}

/// `r` is `s` sorted by ascending layer, ties keeping submission order.
/// The conditions determine `r` uniquely from `s`
/// ([`lemma_stable_sort_unique`]).
pub open spec fn is_stable_layer_sort(s: Seq<TexturedQuad>, r: Seq<TexturedQuad>) -> bool {
    &&& r.len() == s.len()
    &&& sorted_by_layer(r)
    &&& forall|l: u32| #[trigger] with_layer(r, l) == with_layer(s, l)
}

proof fn lemma_with_layer_push(s: Seq<TexturedQuad>, x: TexturedQuad, l: u32)
    ensures
        with_layer(s.push(x), l) == (if x.layer == l {
            with_layer(s, l).push(x)
        } else {
            with_layer(s, l)
        }),
{
    reveal(Seq::filter);
    assert(s.push(x).drop_last() =~= s);
    assert(s.push(x).last() == x);
}

proof fn lemma_with_layer_none(s: Seq<TexturedQuad>, l: u32)
    requires
        forall|k: int| 0 <= k < s.len() ==> s[k].layer != l,
    ensures
        with_layer(s, l) == Seq::<TexturedQuad>::empty(),
    decreases s.len(),
{
    reveal(Seq::filter);
    if s.len() > 0 {
        lemma_with_layer_none(s.drop_last(), l);
    }
}

proof fn lemma_with_layer_first(s: Seq<TexturedQuad>, l: u32)
    requires
        s.len() > 0,
        s[0].layer == l,
    ensures
        with_layer(s, l).len() > 0,
        with_layer(s, l)[0] == s[0],
    decreases s.len(),
{
    reveal(Seq::filter);
    if s.len() > 1 {
        lemma_with_layer_first(s.drop_last(), l);
    }
}

proof fn lemma_with_layer_drop_first(s: Seq<TexturedQuad>, l: u32)
    requires
        s.len() > 0,
    ensures
        with_layer(s, l) == (if s[0].layer == l {
            seq![s[0]] + with_layer(s.drop_first(), l)
        } else {
            with_layer(s.drop_first(), l)
        }),
{
    reveal(Seq::filter);
    let head = seq![s[0]];
    assert(s =~= head + s.drop_first());
    Seq::filter_distributes_over_add(head, s.drop_first(), layer_pred(l));
    assert(head.drop_last() =~= Seq::<TexturedQuad>::empty());
    if s[0].layer == l {
        assert(head.filter(layer_pred(l)) =~= head);
    } else {
        lemma_with_layer_none(head, l);
        assert(head.filter(layer_pred(l)) + with_layer(s.drop_first(), l) =~= with_layer(
            s.drop_first(),
            l,
        ));
    }
}

/// The two conditions of `is_stable_layer_sort` pin the result down: any
/// two sequences of equal length that are sorted by layer and agree, layer
/// by layer, on the subsequence of requests they carry, are the same
/// sequence.
pub proof fn lemma_stable_sort_unique(r1: Seq<TexturedQuad>, r2: Seq<TexturedQuad>)
    requires
        sorted_by_layer(r1),
        sorted_by_layer(r2),
        r1.len() == r2.len(),
        forall|l: u32| #[trigger] with_layer(r1, l) == with_layer(r2, l),
    ensures
        r1 == r2,
    decreases r1.len(),
{
    if r1.len() == 0 {
        assert(r1 =~= r2);
    } else {
        let l = r1[0].layer;
        lemma_with_layer_first(r1, l);
        // r2 must open on the same layer: were its first layer above l, r2
        // would carry nothing on l at all; below l, symmetrically for r1.
        if r2[0].layer > l {
            assert forall|k: int| 0 <= k < r2.len() implies r2[k].layer != l by {
                assert(r2[0].layer <= r2[k].layer);
            }
            lemma_with_layer_none(r2, l);
            assert(false);
        }
        if r2[0].layer < l {
            let l2 = r2[0].layer;
            lemma_with_layer_first(r2, l2);
            assert forall|k: int| 0 <= k < r1.len() implies r1[k].layer != l2 by {
                assert(r1[0].layer <= r1[k].layer);
            }
            lemma_with_layer_none(r1, l2);
            assert(false);
        }
        lemma_with_layer_first(r2, l);
        assert(r1[0] == r2[0]);

        let t1 = r1.drop_first();
        let t2 = r2.drop_first();
        assert forall|m: u32| #[trigger] with_layer(t1, m) == with_layer(t2, m) by {
            lemma_with_layer_drop_first(r1, m);
            lemma_with_layer_drop_first(r2, m);
            if r1[0].layer == m {
                let w1 = with_layer(t1, m);
                let w2 = with_layer(t2, m);
                assert(seq![r1[0]] + w1 == seq![r2[0]] + w2);
                assert(w1 =~= (seq![r1[0]] + w1).skip(1));
                assert(w2 =~= (seq![r2[0]] + w2).skip(1));
            }
        }
        assert(sorted_by_layer(t1)) by {
            assert forall|i: int, j: int| 0 <= i <= j < t1.len() implies t1[i].layer
                <= t1[j].layer by {
                assert(t1[i] == r1[i + 1] && t1[j] == r1[j + 1]);
            }
        }
        assert(sorted_by_layer(t2)) by {
            assert forall|i: int, j: int| 0 <= i <= j < t2.len() implies t2[i].layer
                <= t2[j].layer by {
                assert(t2[i] == r2[i + 1] && t2[j] == r2[j + 1]);
            }
        }
        lemma_stable_sort_unique(t1, t2);
        assert(r1 =~= seq![r1[0]] + t1);
        assert(r2 =~= seq![r2[0]] + t2);
    }
}

/// Inserting `x` after everything on a layer at or below its own, and
/// before everything strictly above, keeps the order sorted and appends
/// `x` at the end of its own layer's subsequence.
proof fn lemma_stable_insert(s: Seq<TexturedQuad>, x: TexturedQuad, pos: int)
    requires
        0 <= pos <= s.len(),
        sorted_by_layer(s),
        forall|k: int| 0 <= k < pos ==> s[k].layer <= x.layer,
        forall|k: int| pos <= k < s.len() ==> s[k].layer > x.layer,
    ensures
        sorted_by_layer(s.insert(pos, x)),
        forall|l: u32| #[trigger] with_layer(s.insert(pos, x), l) == (if x.layer == l {
            with_layer(s, l).push(x)
        } else {
            with_layer(s, l)
        }),
{
    let a = s.subrange(0, pos);
    let b = s.subrange(pos, s.len() as int);
    let t = s.insert(pos, x);
    assert(t == a.push(x) + b);
    assert(s =~= a + b);
    assert(sorted_by_layer(t)) by {
        s.insert_ensures(pos, x);
        assert forall|i: int, j: int| 0 <= i <= j < t.len() implies t[i].layer <= t[j].layer by {
            if i < pos {
                assert(t[i] == s[i]);
            }
            if j < pos {
                assert(t[j] == s[j]);
            }
            if i > pos {
                assert(t[i] == s[i - 1]);
            }
            if j > pos {
                assert(t[j] == s[j - 1]);
            }
        }
    }
    assert forall|l: u32| #[trigger] with_layer(t, l) == (if x.layer == l {
        with_layer(s, l).push(x)
    } else {
        with_layer(s, l)
    }) by {
        Seq::filter_distributes_over_add(a.push(x), b, layer_pred(l));
        Seq::filter_distributes_over_add(a, b, layer_pred(l));
        lemma_with_layer_push(a, x, l);
        if x.layer == l {
            lemma_with_layer_none(b, l);
            assert(with_layer(t, l) =~= with_layer(a, l).push(x));
            assert(with_layer(s, l) =~= with_layer(a, l));
        } else {
            assert(with_layer(t, l) =~= with_layer(s, l));
        }
    }
}

/// Sort a frame's requests by ascending layer; requests on the same layer
/// keep their submission order.
pub fn sort_by_layer(v: &Vec<TexturedQuad>) -> (r: Vec<TexturedQuad>)
    ensures
        is_stable_layer_sort(v@, r@),
{
    let mut out: Vec<TexturedQuad> = Vec::new();
    let mut i: usize = 0;
    while i < v.len()
        invariant
            i <= v@.len(),
            out@.len() == i,
            sorted_by_layer(out@),
            forall|l: u32| #[trigger] with_layer(out@, l) == with_layer(v@.take(i as int), l),
        decreases v@.len() - i,
    {
        let x = v[i];
        let mut pos: usize = out.len();
        while pos > 0 && out[pos - 1].layer > x.layer
            invariant
                pos <= out@.len(),
                forall|k: int| pos <= k < out@.len() ==> out@[k].layer > x.layer,
            decreases pos,
        {
            pos = pos - 1;
        }
        proof {
            assert forall|k: int| 0 <= k < pos implies out@[k].layer <= x.layer by {
                assert(out@[k].layer <= out@[pos - 1].layer);
            }
            lemma_stable_insert(out@, x, pos as int);
            assert(v@.take(i as int + 1) =~= v@.take(i as int).push(v@[i as int]));
        }
        out.insert(pos, x);
        proof {
            assert forall|l: u32| #[trigger] with_layer(out@, l) == with_layer(
                v@.take(i as int + 1),
                l,
            ) by {
                lemma_with_layer_push(v@.take(i as int), x, l);
            }
        }
        i = i + 1;
    }
    proof {
        assert(v@.take(v@.len() as int) =~= v@);
    }
    out
}

} // verus!
