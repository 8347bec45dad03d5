use vstd::prelude::*;
use crate::config::MergeOrder;
use crate::types::ValidatorId;

verus! {

/// No identity occurs twice in `s`.
pub open spec fn no_dups(s: Seq<ValidatorId>) -> bool {
    forall|i: int, j: int| 0 <= i < j < s.len() ==> s[i] != s[j]
}

/// `s` with every repeated occurrence dropped, keeping first occurrences in order.
pub open spec fn dedup(s: Seq<ValidatorId>) -> Seq<ValidatorId>
    decreases s.len(),
{
    if s.len() == 0 {
        Seq::empty()
    } else {
        let prev = dedup(s.drop_last());
        if prev.contains(s.last()) {
            prev
        } else {
            prev.push(s.last())
        }
    }
}

/// The entries of `s` that are not in `removed`, in order.
pub open spec fn retained(s: Seq<ValidatorId>, removed: Seq<ValidatorId>) -> Seq<ValidatorId>
    decreases s.len(),
{
    if s.len() == 0 {
        Seq::empty()
    } else {
        let prev = retained(s.drop_last(), removed);
        if removed.contains(s.last()) {
            prev
        } else {
            prev.push(s.last())
        }
    }
}

/// The set that a steady-state reconciliation computes: removals are applied to the
/// active set first, then the additions are appended, and repeats are dropped.
pub open spec fn reconciled(
    active: Seq<ValidatorId>,
    removals: Seq<ValidatorId>,
    additions: Seq<ValidatorId>,
) -> Seq<ValidatorId> {
    dedup(retained(active, removals) + additions)
}

/// The same with additions applied before removals: a removal then wins.
pub open spec fn reconciled_additions_first(
    active: Seq<ValidatorId>,
    removals: Seq<ValidatorId>,
    additions: Seq<ValidatorId>,
) -> Seq<ValidatorId> {
    dedup(retained(active + additions, removals))
}

/// The set that a steady-state reconciliation computes under `order`.
pub open spec fn reconciled_in(
    order: MergeOrder,
    active: Seq<ValidatorId>,
    removals: Seq<ValidatorId>,
    additions: Seq<ValidatorId>,
) -> Seq<ValidatorId> {
    match order {
        MergeOrder::RemovalsFirst => reconciled(active, removals, additions),
        MergeOrder::AdditionsFirst => reconciled_additions_first(active, removals, additions),
    }
}

/// The entries of `p.push(x)` are those of `p` and `x`.
pub proof fn lemma_contains_push(p: Seq<ValidatorId>, x: ValidatorId)
    ensures
        forall|v: ValidatorId| p.push(x).contains(v) <==> (p.contains(v) || v == x),
{
    let d = p.push(x);
    assert forall|v: ValidatorId| d.contains(v) <==> (p.contains(v) || v == x) by {
        if d.contains(v) {
            let i = choose|i: int| 0 <= i < d.len() && d[i] == v;
            if i < p.len() {
                assert(p[i] == v);
            }
        }
        if p.contains(v) {
            let i = choose|i: int| 0 <= i < p.len() && p[i] == v;
            assert(d[i] == v);
        }
        if v == x {
            assert(d[d.len() - 1] == v);
        }
    }
}

/// The entries of a non-empty `s` are those of `s.drop_last()` and `s.last()`.
pub proof fn lemma_contains_last(s: Seq<ValidatorId>)
    requires
        s.len() > 0,
    ensures
        forall|v: ValidatorId| s.contains(v) <==> (s.drop_last().contains(v) || v == s.last()),
{
    assert(s.drop_last().push(s.last()) =~= s);
    lemma_contains_push(s.drop_last(), s.last());
}

/// Deduplication keeps exactly the identities of its input, each once.
pub proof fn lemma_dedup(s: Seq<ValidatorId>)
    ensures
        no_dups(dedup(s)),
        forall|v: ValidatorId| dedup(s).contains(v) <==> s.contains(v),
        dedup(s).len() <= s.len(),
    decreases s.len(),
{
    if s.len() > 0 {
        let prev = dedup(s.drop_last());
        lemma_dedup(s.drop_last());
        lemma_contains_last(s);
        if !prev.contains(s.last()) {
            let d = prev.push(s.last());
            lemma_contains_push(prev, s.last());
            assert forall|i: int, j: int| 0 <= i < j < d.len() implies d[i] != d[j] by {
                if j == d.len() - 1 {
                    assert(prev[i] == d[i]);
                }
            }
        }
    }
}

/// Every identity that `retained` keeps is in the input and not removed.
pub proof fn lemma_retained(s: Seq<ValidatorId>, removed: Seq<ValidatorId>)
    ensures
        forall|v: ValidatorId| retained(s, removed).contains(v) <==> (s.contains(v) && !removed.contains(v)),
    decreases s.len(),
{
    if s.len() > 0 {
        let prev = retained(s.drop_last(), removed);
        lemma_retained(s.drop_last(), removed);
        lemma_contains_last(s);
        if !removed.contains(s.last()) {
            lemma_contains_push(prev, s.last());
        }
    }
}

/// A sequence without repeats is its own deduplication.
pub proof fn lemma_dedup_no_dups(s: Seq<ValidatorId>)
    requires
        no_dups(s),
    ensures
        dedup(s) == s,
    decreases s.len(),
{
    if s.len() > 0 {
        let p = s.drop_last();
        assert(no_dups(p));
        lemma_dedup_no_dups(p);
        if p.contains(s.last()) {
            let i = choose|i: int| 0 <= i < p.len() && p[i] == s.last();
            assert(s[i] == s[s.len() - 1]);
        }
        assert(p.push(s.last()) =~= s);
    }
}

/// Nothing is dropped by `retained` when nothing is removed.
pub proof fn lemma_retained_none(s: Seq<ValidatorId>)
    ensures
        retained(s, Seq::empty()) == s,
    decreases s.len(),
{
    if s.len() > 0 {
        lemma_retained_none(s.drop_last());
        assert(s.drop_last().push(s.last()) =~= s);
    }
}

/// An identity of `v` is in no entry before index `n` of `s`.
pub open spec fn absent_before(s: Seq<ValidatorId>, n: int, v: ValidatorId) -> bool {
    forall|j: int| 0 <= j < n ==> s[j] != v
}

/// Whether `v` is an entry of `s`.
pub fn contains_id(s: &Vec<ValidatorId>, v: ValidatorId) -> (r: bool)
    ensures
        r == s@.contains(v),
{
    let mut i: usize = 0;
    while i < s.len()
        invariant
            i <= s@.len(),
            absent_before(s@, i as int, v),
        decreases s.len() - i,
    {
        if s[i] == v {
            return true;
        }
        i = i + 1;
    }
    false
}

/// A copy of `s`.
pub fn copy_ids(s: &Vec<ValidatorId>) -> (r: Vec<ValidatorId>)
    ensures
        r@ == s@,
{
    let mut r: Vec<ValidatorId> = Vec::new();
    let mut i: usize = 0;
    while i < s.len()
        invariant
            i <= s@.len(),
            r@ == s@.subrange(0, i as int),
        decreases s.len() - i,
    {
        r.push(s[i]);
        i = i + 1;
    }
    assert(r@ =~= s@);
    r
}

/// Appends to `out` each entry of `src` that is neither excluded nor already there.
fn extend_distinct(
    out: &mut Vec<ValidatorId>,
    src: &Vec<ValidatorId>,
    excluded: &Vec<ValidatorId>,
    Ghost(base): Ghost<Seq<ValidatorId>>,
)
    requires
        old(out)@ == dedup(retained(base, excluded@)),
    ensures
        final(out)@ == dedup(retained(base + src@, excluded@)),
{
    assert(base + src@.subrange(0, 0) =~= base);
    let mut k: usize = 0;
    while k < src.len()
        invariant
            k <= src@.len(),
            out@ == dedup(retained(base + src@.subrange(0, k as int), excluded@)),
        decreases src.len() - k,
    {
        let v = src[k];
        let ghost pre = base + src@.subrange(0, k as int);
        let ghost next = base + src@.subrange(0, k + 1);
        assert(next.drop_last() =~= pre);
        assert(next.last() == v);
        if !contains_id(excluded, v) {
            let ghost kept = retained(pre, excluded@);
            assert(kept.push(v).drop_last() =~= kept);
            if !contains_id(out, v) {
                out.push(v);
            }
        }
        k = k + 1;
    }
    assert(base + src@.subrange(0, src@.len() as int) =~= base + src@);
}

/// Computes a steady-state reconciliation of `active` with the two drained queues.
pub fn reconcile(
    active: &Vec<ValidatorId>,
    removals: &Vec<ValidatorId>,
    additions: &Vec<ValidatorId>,
    order: MergeOrder,
) -> (r: Vec<ValidatorId>)
    ensures
        r@ == reconciled_in(order, active@, removals@, additions@),
{
    let mut out: Vec<ValidatorId> = Vec::new();
    let ghost empty = Seq::<ValidatorId>::empty();
    assert(empty + active@ =~= active@);
    extend_distinct(&mut out, active, removals, Ghost(empty));
    match order {
        MergeOrder::RemovalsFirst => {
            let none: Vec<ValidatorId> = Vec::new();
            let ghost kept = retained(active@, removals@);
            proof {
                lemma_retained_none(kept);
                lemma_retained_none(kept + additions@);
            }
            assert(none@ =~= Seq::<ValidatorId>::empty());
            extend_distinct(&mut out, additions, &none, Ghost(kept));
        },
        MergeOrder::AdditionsFirst => {
            extend_distinct(&mut out, additions, removals, Ghost(active@));
        },
    }
    out
}

} // verus!
