//! General facts about filtering sequences, and about selecting or dropping
//! a set of positions of a sequence. The association set's removal
//! operations and the TCP flag decoder are proved against these.
use vstd::prelude::*;

verus! {

/// Filtering after a push keeps the filtered prefix and appends the new
/// element exactly when it satisfies the predicate.
pub proof fn lemma_filter_push<A>(s: Seq<A>, x: A, pred: spec_fn(A) -> bool)
    ensures
        s.push(x).filter(pred) == (if pred(x) {
            s.filter(pred).push(x)
        } else {
            s.filter(pred)
        }),
{
    reveal(Seq::filter);
    assert(s.push(x).drop_last() =~= s);
}

/// Two predicates that agree on every element of a sequence filter it to
/// the same subsequence.
pub proof fn lemma_filter_agree<A>(s: Seq<A>, p: spec_fn(A) -> bool, q: spec_fn(A) -> bool)
    requires
        forall|i: int| 0 <= i < s.len() ==> (p(#[trigger] s[i]) == q(s[i])),
    ensures
        s.filter(p) == s.filter(q),
    decreases s.len(),
{
    reveal(Seq::filter);
    if s.len() > 0 {
        assert forall|i: int| 0 <= i < s.drop_last().len() implies (p(
            #[trigger] s.drop_last()[i],
        ) == q(s.drop_last()[i])) by {
            assert(s.drop_last()[i] == s[i]);
        }
        lemma_filter_agree(s.drop_last(), p, q);
    }
}

/// A predicate that holds of no element filters a sequence to nothing.
pub proof fn lemma_filter_none<A>(s: Seq<A>, pred: spec_fn(A) -> bool)
    requires
        forall|i: int| 0 <= i < s.len() ==> !pred(#[trigger] s[i]),
    ensures
        s.filter(pred) == Seq::<A>::empty(),
    decreases s.len(),
{
    reveal(Seq::filter);
    if s.len() > 0 {
        assert forall|i: int| 0 <= i < s.drop_last().len() implies !pred(
            #[trigger] s.drop_last()[i],
        ) by {
            assert(s.drop_last()[i] == s[i]);
        }
        lemma_filter_none(s.drop_last(), pred);
    }
}

/// Filtering twice filters once by the conjunction.
pub proof fn lemma_filter_compose<A>(s: Seq<A>, p: spec_fn(A) -> bool, q: spec_fn(A) -> bool)
    ensures
        s.filter(p).filter(q) == s.filter(|x: A| p(x) && q(x)),
    decreases s.len(),
{
    reveal(Seq::filter);
    if s.len() == 0 {
        assert(s.filter(p).filter(q) =~= s.filter(|x: A| p(x) && q(x)));
    } else {
        lemma_filter_compose(s.drop_last(), p, q);
        if p(s.last()) {
            lemma_filter_push(s.drop_last().filter(p), s.last(), q);
            assert(s.filter(p) == s.drop_last().filter(p).push(s.last()));
        } else {
            assert(s.filter(p) == s.drop_last().filter(p));
        }
    }
}

/// A filtered sequence is non-empty exactly when some element satisfies
/// the predicate.
pub proof fn lemma_filter_nonempty_iff<A>(s: Seq<A>, pred: spec_fn(A) -> bool)
    ensures
        s.filter(pred).len() > 0 <==> exists|j: int| 0 <= j < s.len() && pred(#[trigger] s[j]),
    decreases s.len(),
{
    reveal(Seq::filter);
    if s.len() > 0 {
        let s0 = s.drop_last();
        lemma_filter_nonempty_iff(s0, pred);
        assert(forall|j: int| 0 <= j < s0.len() ==> #[trigger] s0[j] == s[j]);
        if exists|j: int| 0 <= j < s.len() && pred(#[trigger] s[j]) {
            let j = choose|j: int| 0 <= j < s.len() && pred(#[trigger] s[j]);
            if j < s.len() - 1 {
                assert(pred(s0[j]));
            } else {
                assert(pred(s.last()));
            }
        }
        if s.filter(pred).len() > 0 && !pred(s.last()) {
            let j = choose|j: int| 0 <= j < s0.len() && pred(#[trigger] s0[j]);
            assert(pred(s[j]));
        }
    }
}

/// Mapping after a push is mapping first and pushing the image.
pub proof fn lemma_map_values_push<A, B>(s: Seq<A>, x: A, f: spec_fn(A) -> B)
    ensures
        s.push(x).map_values(f) == s.map_values(f).push(f(x)),
{
    assert(s.push(x).map_values(f) =~= s.map_values(f).push(f(x)));
}

/// Each element of a sequence tagged with its position.
pub open spec fn pos_pairs<A>(s: Seq<A>) -> Seq<(int, A)> {
    Seq::new(s.len(), |q: int| (q, s[q]))
}

/// Whether some element of `idx` names position `q`.
pub open spec fn contains_position(idx: Seq<usize>, q: int) -> bool {
    exists|j: int| 0 <= j < idx.len() && idx[j] == q
}

/// The elements of `s` at positions not named by `idx`, in original order.
pub open spec fn seq_drop_positions<A>(s: Seq<A>, idx: Seq<usize>) -> Seq<A> {
    pos_pairs(s).filter(|p: (int, A)| !contains_position(idx, p.0)).map_values(
        |p: (int, A)| p.1,
    )
}

/// The elements of `s` at the positions named by `idx`, in original order.
pub open spec fn seq_keep_positions<A>(s: Seq<A>, idx: Seq<usize>) -> Seq<A> {
    pos_pairs(s).filter(|p: (int, A)| contains_position(idx, p.0)).map_values(|p: (int, A)| p.1)
}

/// Filtering the position-tagged pairs of a sequence by a predicate on the
/// values alone, then dropping the tags, is filtering the sequence.
pub proof fn lemma_pairs_filter_map<A>(s: Seq<A>, keep: spec_fn(A) -> bool)
    ensures
        pos_pairs(s).filter(|p: (int, A)| keep(p.1)).map_values(|p: (int, A)| p.1) == s.filter(
            keep,
        ),
    decreases s.len(),
{
    reveal(Seq::filter);
    let pred = |p: (int, A)| keep(p.1);
    let untag = |p: (int, A)| p.1;
    if s.len() == 0 {
        assert(pos_pairs(s).filter(pred).map_values(untag) =~= s.filter(keep));
    } else {
        let s0 = s.drop_last();
        lemma_pairs_filter_map(s0, keep);
        assert(pos_pairs(s) =~= pos_pairs(s0).push((s.len() - 1, s.last())));
        lemma_filter_push(pos_pairs(s0), (s.len() - 1, s.last()), pred);
        if keep(s.last()) {
            lemma_map_values_push(
                pos_pairs(s0).filter(pred),
                (s.len() - 1, s.last()),
                untag,
            );
        }
    }
}

/// When membership of a position in `idx` coincides with a value predicate
/// holding at that position, dropping the named positions filters the
/// values that satisfy the predicate out, and keeping them filters the
/// others out.
pub proof fn lemma_positions_by_pred<A>(s: Seq<A>, idx: Seq<usize>, predv: spec_fn(A) -> bool)
    requires
        forall|q: int| 0 <= q < s.len() ==> (contains_position(idx, q) <==> predv(
            #[trigger] s[q],
        )),
    ensures
        seq_drop_positions(s, idx) == s.filter(|x: A| !predv(x)),
        seq_keep_positions(s, idx) == s.filter(predv),
{
    let pairs = pos_pairs(s);
    let keep_out = |x: A| !predv(x);
    assert forall|i: int| 0 <= i < pairs.len() implies ((|p: (int, A)| !contains_position(
        idx,
        p.0,
    ))(#[trigger] pairs[i]) == (|p: (int, A)| keep_out(p.1))(pairs[i])) by {
        assert(pairs[i] == (i, s[i]));
    }
    lemma_filter_agree(
        pairs,
        |p: (int, A)| !contains_position(idx, p.0),
        |p: (int, A)| keep_out(p.1),
    );
    lemma_pairs_filter_map(s, keep_out);
    assert forall|i: int| 0 <= i < pairs.len() implies ((|p: (int, A)| contains_position(
        idx,
        p.0,
    ))(#[trigger] pairs[i]) == (|p: (int, A)| predv(p.1))(pairs[i])) by {
        assert(pairs[i] == (i, s[i]));
    }
    lemma_filter_agree(
        pairs,
        |p: (int, A)| contains_position(idx, p.0),
        |p: (int, A)| predv(p.1),
    );
    lemma_pairs_filter_map(s, predv);
}

} // verus!
