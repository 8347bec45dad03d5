use vstd::prelude::*;
use crate::config::{Config, MergeOrder};
use crate::keys::KeyRegistry;
use crate::merge::{
    dedup, lemma_dedup, lemma_dedup_no_dups, lemma_retained, lemma_retained_none, no_dups,
    reconciled_in, retained,
};
use crate::pallet::{drains, enqueue_all, registration, session_result};
use crate::types::{RuntimeOrigin, SessionIndex, ValidatorId};

verus! {

/// `v` stands in `s` at exactly one position.
pub open spec fn occurs_once(s: Seq<ValidatorId>, v: ValidatorId) -> bool {
    exists|i: int|
        0 <= i < s.len() && s[i] == v && forall|j: int| 0 <= j < s.len() && #[trigger] s[j] == v ==> j == i
}

/// A successful enqueue appends the submitted identities to the queue, and a queue
/// without repeats stays without repeats.
pub proof fn lemma_enqueue_keeps_distinct(
    cfg: Config,
    keys: &KeyRegistry,
    queue: Seq<ValidatorId>,
    vs: Seq<ValidatorId>,
)
    ensures
        enqueue_all(cfg, keys, queue, vs) is Ok ==> enqueue_all(cfg, keys, queue, vs)->Ok_0 == queue + vs,
        no_dups(queue) && enqueue_all(cfg, keys, queue, vs) is Ok ==> no_dups(
            enqueue_all(cfg, keys, queue, vs)->Ok_0,
        ),
    decreases vs.len(),
{
    if vs.len() > 0 && !queue.contains(vs[0]) {
        let next = queue.push(vs[0]);
        lemma_enqueue_keeps_distinct(cfg, keys, next, vs.drop_first());
        assert(next + vs.drop_first() =~= queue + vs);
        if no_dups(queue) {
            assert forall|i: int, j: int| 0 <= i < j < next.len() implies next[i] != next[j] by {
                if j == next.len() - 1 {
                    assert(queue[i] == next[i]);
                }
            }
        }
    }
}

/// Under any sequence of registrations, the additions queue never holds an identity twice.
pub proof fn lemma_registration_keeps_queue_distinct(
    cfg: Config,
    keys: &KeyRegistry,
    origin: RuntimeOrigin,
    queue: Seq<ValidatorId>,
    vs: Seq<ValidatorId>,
)
    requires
        no_dups(queue),
    ensures
        registration(cfg, keys, origin, queue, vs) is Ok ==> no_dups(
            registration(cfg, keys, origin, queue, vs)->Ok_0,
        ),
{
    lemma_enqueue_keeps_distinct(cfg, keys, queue, vs);
}

/// An identity accepted by a registration is, after the next reconciliation outside
/// the bootstrap window that keeps at least the minimum, in the new active set exactly
/// once. Under removals-first merging a pending removal does not take it out again;
/// under additions-first merging it must not be queued for removal.
pub proof fn lemma_registered_then_reconciled(
    cfg: Config,
    keys: &KeyRegistry,
    origin: RuntimeOrigin,
    queue: Seq<ValidatorId>,
    removals: Seq<ValidatorId>,
    vs: Seq<ValidatorId>,
    v: ValidatorId,
    active: Seq<ValidatorId>,
    index: SessionIndex,
)
    requires
        vs.contains(v),
        registration(cfg, keys, origin, queue, vs) is Ok,
        drains(cfg, index),
        cfg.merge_order == MergeOrder::RemovalsFirst || !removals.contains(v),
        reconciled_in(
            cfg.merge_order,
            active,
            removals,
            registration(cfg, keys, origin, queue, vs)->Ok_0,
        ).len() >= cfg.min_authorities,
    ensures
        session_result(cfg, index, active, registration(cfg, keys, origin, queue, vs)->Ok_0, removals)
            is Some,
        occurs_once(
            session_result(
                cfg,
                index,
                active,
                registration(cfg, keys, origin, queue, vs)->Ok_0,
                removals,
            )->Some_0,
            v,
        ),
{
    lemma_enqueue_keeps_distinct(cfg, keys, queue, vs);
    let q = registration(cfg, keys, origin, queue, vs)->Ok_0;
    assert(q == queue + vs);
    let i = choose|i: int| 0 <= i < vs.len() && vs[i] == v;
    let merged = match cfg.merge_order {
        MergeOrder::RemovalsFirst => retained(active, removals) + q,
        MergeOrder::AdditionsFirst => retained(active + q, removals),
    };
    match cfg.merge_order {
        MergeOrder::RemovalsFirst => {
            assert(merged[retained(active, removals).len() + queue.len() + i] == v);
        },
        MergeOrder::AdditionsFirst => {
            assert((active + q)[active.len() + queue.len() + i] == v);
            lemma_retained(active + q, removals);
        },
    }
    assert(merged.contains(v));
    lemma_dedup(merged);
    let s = dedup(merged);
    assert(s.contains(v));
    let k = choose|k: int| 0 <= k < s.len() && s[k] == v;
    assert forall|j: int| 0 <= j < s.len() && #[trigger] s[j] == v implies j == k by {
        if j < k {
            assert(s[j] != s[k]);
        } else if k < j {
            assert(s[k] != s[j]);
        }
    }
}

/// Running a session again, with no new queue entries, changes nothing: the result
/// is no change, or the very set already in force.
pub proof fn lemma_repeat_session_no_change(
    cfg: Config,
    index: SessionIndex,
    active: Seq<ValidatorId>,
    additions: Seq<ValidatorId>,
    removals: Seq<ValidatorId>,
)
    requires
        no_dups(active),
    ensures
        ({
            let next = match session_result(cfg, index, active, additions, removals) {
                Some(s) => s,
                None => active,
            };
            let again = session_result(cfg, index, next, Seq::empty(), Seq::empty());
            again == None::<Seq<ValidatorId>> || again == Some(next)
        }),
        index == 0 || cfg.in_bootstrap(index) ==> session_result(
            cfg,
            index,
            match session_result(cfg, index, active, additions, removals) {
                Some(s) => s,
                None => active,
            },
            Seq::empty(),
            Seq::empty(),
        ) == None::<Seq<ValidatorId>>,
{
    if drains(cfg, index) {
        let next = match session_result(cfg, index, active, additions, removals) {
            Some(s) => s,
            None => active,
        };
        lemma_dedup(retained(active, removals) + additions);
        lemma_dedup(retained(active + additions, removals));
        assert(no_dups(next));
        lemma_retained_none(next);
        assert(retained(next, Seq::empty()) + Seq::<ValidatorId>::empty() =~= next);
        assert(next + Seq::<ValidatorId>::empty() =~= next);
        lemma_dedup_no_dups(next);
    }
}

} // verus!
