//! Reconciling the held snapshot with a freshly fetched collection, by id.

use vstd::prelude::*;

use crate::models::Fissure;

verus! {

/// Whether some fissure of the collection carries the id.
#[verifier::opaque]
pub open spec fn has_id(fissures: Seq<Fissure>, id: Seq<char>) -> bool {
    exists|i: int| 0 <= i < fissures.len() && (#[trigger] fissures[i]).id@ == id
}

/// No two fissures of the collection share an id.
pub open spec fn distinct_ids(fissures: Seq<Fissure>) -> bool {
    forall|i: int, j: int|
        0 <= i < j < fissures.len() ==> (#[trigger] fissures[i]).id@ != (#[trigger] fissures[j]).id@
}

/// The predicate "its id occurs in `other`".
pub open spec fn present_in(other: Seq<Fissure>) -> spec_fn(Fissure) -> bool {
    |fissure: Fissure| has_id(other, fissure.id@)
}

/// The predicate "its id does not occur in `other`".
pub open spec fn absent_from(other: Seq<Fissure>) -> spec_fn(Fissure) -> bool {
    |fissure: Fissure| !has_id(other, fissure.id@)
}

/// The held fissures whose id is still among the fetched ones, in held order.
pub open spec fn retained(held: Seq<Fissure>, current: Seq<Fissure>) -> Seq<Fissure> {
    held.filter(present_in(current))
}

/// The held fissures whose id is no longer among the fetched ones.
pub open spec fn removed(held: Seq<Fissure>, current: Seq<Fissure>) -> Seq<Fissure> {
    held.filter(absent_from(current))
}

/// The fetched fissures whose id is not held, in fetched order; of several
/// fetched fissures with one id only the first counts.
pub open spec fn added(held: Seq<Fissure>, current: Seq<Fissure>) -> Seq<Fissure>
    decreases current.len(),
{
    if current.len() == 0 {
        Seq::empty()
    } else {
        let earlier = current.drop_last();
        let id = current.last().id@;
        if has_id(held, id) || has_id(earlier, id) {
            added(held, earlier)
        } else {
            added(held, earlier).push(current.last())
        }
    }
}

/// The snapshot after reconciliation: what is retained, in its old order,
/// followed by what was added.
pub open spec fn reconciled(held: Seq<Fissure>, current: Seq<Fissure>) -> Seq<Fissure> {
    retained(held, current) + added(held, current)
}

/// Whether a fissure with this id is in the collection.
pub fn contains_id(fissures: &Vec<Fissure>, id: &String) -> (found: bool)
    ensures
        found == has_id(fissures@, id@),
{
    let mut i: usize = 0;
    while i < fissures.len()
        invariant
            i <= fissures.len(),
            forall|j: int| 0 <= j < i ==> (#[trigger] fissures@[j]).id@ != id@,
        decreases fissures.len() - i,
    {
        if fissures[i].id == *id {
            proof {
                reveal(has_id);
            }
            return true;
        }
        i += 1;
    }
    proof {
        reveal(has_id);
    }
    false
}

/// Brings the held snapshot up to date with the fetched collection: drops the
/// held fissures whose id is gone, appends the fetched ones whose id is new,
/// and leaves every fissure whose id persists as it was held. Returns the
/// number added and the number removed.
pub fn update_fissures(held: &mut Vec<Fissure>, current: Vec<Fissure>) -> (counts: (usize, usize))
    ensures
        final(held)@ == reconciled(old(held)@, current@),
        counts.0 == added(old(held)@, current@).len(),
        counts.1 == removed(old(held)@, current@).len(),
{
    let ghost before = held@;
    let removed_count = remove_expired(held, &current);
    let new_count = add_new(held, &current, Ghost(before));
    (new_count, removed_count)
}

/// Drops the held fissures whose id is not among the fetched ones, and
/// returns how many were dropped.
fn remove_expired(held: &mut Vec<Fissure>, current: &Vec<Fissure>) -> (removed_count: usize)
    ensures
        final(held)@ == retained(old(held)@, current@),
        removed_count == removed(old(held)@, current@).len(),
{
    let ghost before = held@;
    let total = held.len();
    let mut removed_count: usize = 0;
    let mut seen: usize = 0;
    let mut i: usize = 0;
    proof {
        assert(before.take(0) =~= Seq::<Fissure>::empty());
        assert(before.skip(0) =~= before);
        lemma_filter_keeps_all(before.take(0), present_in(current@));
        lemma_filter_keeps_all(before.take(0), absent_from(current@));
    }
    while seen < total
        invariant
            seen <= total == before.len(),
            i + removed_count == seen,
            i == retained(before.take(seen as int), current@).len(),
            removed_count == removed(before.take(seen as int), current@).len(),
            held@ == retained(before.take(seen as int), current@) + before.skip(seen as int),
        decreases total - seen,
    {
        let ghost prefix = before.take(seen as int);
        let ghost next = before[seen as int];
        proof {
            assert(before.take(seen + 1) =~= prefix.push(next));
            prefix.lemma_filter_push(next, present_in(current@));
            prefix.lemma_filter_push(next, absent_from(current@));
            assert(held@[i as int] == before.skip(seen as int)[0]);
        }
        if contains_id(current, &held[i].id) {
            proof {
                assert(retained(before.take(seen + 1), current@) == retained(prefix, current@).push(
                    next,
                ));
                assert(held@ =~= retained(prefix, current@).push(next) + before.skip(seen + 1));
            }
            i += 1;
        } else {
            held.remove(i);
            removed_count += 1;
            proof {
                assert(retained(before.take(seen + 1), current@) == retained(prefix, current@));
                assert(held@ =~= retained(prefix, current@) + before.skip(seen + 1));
            }
        }
        seen += 1;
    }
    proof {
        assert(before.take(total as int) =~= before);
        assert(held@ =~= retained(before, current@));
    }
    removed_count
}

/// Appends the fetched fissures whose id is not yet in the snapshot, and
/// returns how many were appended. `before` is the snapshot before the
/// expired fissures were dropped from it.
fn add_new(
    held: &mut Vec<Fissure>,
    current: &Vec<Fissure>,
    Ghost(before): Ghost<Seq<Fissure>>,
) -> (new_count: usize)
    requires
        old(held)@ == retained(before, current@),
    ensures
        final(held)@ == reconciled(before, current@),
        new_count == added(before, current@).len(),
{
    let mut new_count: usize = 0;
    let mut j: usize = 0;
    proof {
        assert(current@.take(0) =~= Seq::<Fissure>::empty());
        assert(held@ =~= retained(before, current@) + Seq::<Fissure>::empty());
    }
    while j < current.len()
        invariant
            j <= current.len(),
            new_count == added(before, current@.take(j as int)).len(),
            new_count <= j,
            held@ == retained(before, current@) + added(before, current@.take(j as int)),
        decreases current.len() - j,
    {
        let ghost earlier = current@.take(j as int);
        let ghost next = current@[j as int];
        let ghost id = next.id@;
        proof {
            assert(current@.take(j + 1).drop_last() =~= earlier);
            assert(current@.take(j + 1).last() == next);
            assert(has_id(held@, id) <==> has_id(before, id) || has_id(earlier, id)) by {
                lemma_has_id_add(retained(before, current@), added(before, earlier), id);
                lemma_has_id_retained(before, current@, id);
                lemma_has_id_added(before, earlier, id);
                lemma_has_own_id(current@, j as int);
            }
        }
        if !contains_id(held, &current[j].id) {
            held.push(current[j].clone());
            new_count += 1;
            proof {
                assert(added(before, current@.take(j + 1)) == added(before, earlier).push(next));
                assert(held@ =~= retained(before, current@) + added(before, earlier).push(next));
            }
        } else {
            proof {
                assert(added(before, current@.take(j + 1)) == added(before, earlier));
            }
        }
        j += 1;
    }
    proof {
        assert(current@.take(current.len() as int) =~= current@);
    }
    new_count
}

/// The size of the reconciled snapshot: the held size, less what was removed,
/// plus what was added. What is retained and what is removed make up the held
/// collection.
pub proof fn lemma_reconciled_len(held: Seq<Fissure>, current: Seq<Fissure>)
    ensures
        retained(held, current).len() + removed(held, current).len() == held.len(),
        reconciled(held, current).len() == held.len() - removed(held, current).len() + added(
            held,
            current,
        ).len(),
    decreases held.len(),
{
    reveal(Seq::filter);
    if held.len() > 0 {
        lemma_reconciled_len(held.drop_last(), current);
    }
}

/// Where the fetched collection repeats no id, what is added is the fetched
/// collection filtered by "id not held".
pub proof fn lemma_added_is_filter(held: Seq<Fissure>, current: Seq<Fissure>)
    requires
        distinct_ids(current),
    ensures
        added(held, current) == current.filter(absent_from(held)),
    decreases current.len(),
{
    reveal(Seq::filter);
    if current.len() > 0 {
        let earlier = current.drop_last();
        assert(current =~= earlier.push(current.last()));
        lemma_distinct_push(earlier, current.last());
        lemma_added_is_filter(held, earlier);
    }
}

/// A snapshot without repeated ids stays so through reconciliation, whatever
/// was fetched.
pub proof fn lemma_reconciled_distinct(held: Seq<Fissure>, current: Seq<Fissure>)
    requires
        distinct_ids(held),
    ensures
        distinct_ids(reconciled(held, current)),
{
    lemma_distinct_filter(held, present_in(current));
    lemma_distinct_with_added(retained(held, current), held, current);
}

/// Reconciling collections without repeated ids: what is added is the fetched
/// collection without the held ids, what is removed is the held collection
/// without the fetched ids, the new snapshot has the held size less the
/// removed plus the added, and it again repeats no id.
pub proof fn lemma_reconcile_by_id(held: Seq<Fissure>, current: Seq<Fissure>)
    requires
        distinct_ids(held),
        distinct_ids(current),
    ensures
        added(held, current) == current.filter(absent_from(held)),
        removed(held, current) == held.filter(absent_from(current)),
        reconciled(held, current).len() == held.len() - removed(held, current).len() + added(
            held,
            current,
        ).len(),
        distinct_ids(reconciled(held, current)),
    decreases current.len(),
{
    lemma_reconciled_len(held, current);
    lemma_reconciled_distinct(held, current);
    lemma_added_is_filter(held, current);
}

/// The ids of the reconciled snapshot are exactly the fetched ids.
pub proof fn lemma_reconciled_ids(held: Seq<Fissure>, current: Seq<Fissure>, id: Seq<char>)
    ensures
        has_id(reconciled(held, current), id) <==> has_id(current, id),
{
    lemma_has_id_add(retained(held, current), added(held, current), id);
    lemma_has_id_retained(held, current, id);
    lemma_has_id_added(held, current, id);
}

/// Where the snapshot and the fetched collection carry the same ids,
/// reconciling adds nothing, removes nothing and leaves the snapshot as it is.
pub proof fn lemma_reconcile_same_ids(held: Seq<Fissure>, current: Seq<Fissure>)
    requires
        forall|id: Seq<char>| has_id(held, id) <==> has_id(current, id),
    ensures
        added(held, current).len() == 0,
        removed(held, current).len() == 0,
        reconciled(held, current) == held,
{
    assert(added(held, current) == Seq::<Fissure>::empty()) by {
        assert forall|i: int| 0 <= i < current.len() implies has_id(
            held,
            (#[trigger] current[i]).id@,
        ) by {
            lemma_has_own_id(current, i);
        }
        lemma_added_none(held, current);
    }
    assert(removed(held, current) == Seq::<Fissure>::empty() && retained(held, current) == held) by {
        assert forall|i: int| 0 <= i < held.len() implies has_id(
            current,
            (#[trigger] held[i]).id@,
        ) by {
            lemma_has_own_id(held, i);
        }
        lemma_filter_keeps_none(held, absent_from(current));
        lemma_filter_keeps_all(held, present_in(current));
    }
    assert(held + Seq::<Fissure>::empty() =~= held);
}

/// Reconciling a snapshot against itself adds nothing, removes nothing and
/// leaves it as it is.
pub proof fn lemma_reconcile_self(held: Seq<Fissure>)
    ensures
        added(held, held).len() == 0,
        removed(held, held).len() == 0,
        reconciled(held, held) == held,
{
    lemma_reconcile_same_ids(held, held);
}

/// Reconciling a second time against the same fetched collection adds
/// nothing, removes nothing and leaves the snapshot as the first time left
/// it: a second round with an unchanged fetch finds nothing new.
pub proof fn lemma_reconcile_twice(held: Seq<Fissure>, current: Seq<Fissure>)
    ensures
        added(reconciled(held, current), current).len() == 0,
        removed(reconciled(held, current), current).len() == 0,
        reconciled(reconciled(held, current), current) == reconciled(held, current),
{
    let once = reconciled(held, current);
    assert forall|id: Seq<char>| has_id(once, id) <==> has_id(current, id) by {
        lemma_reconciled_ids(held, current, id);
    }
    lemma_reconcile_same_ids(once, current);
}

/// The empty collection carries no id.
pub proof fn lemma_has_id_empty(id: Seq<char>)
    ensures
        !has_id(Seq::<Fissure>::empty(), id),
{
    reveal(has_id);
}

/// A collection carries the id of each of its members.
pub proof fn lemma_has_own_id(fissures: Seq<Fissure>, i: int)
    requires
        0 <= i < fissures.len(),
    ensures
        has_id(fissures, fissures[i].id@),
{
    reveal(has_id);
}

/// An id occurs in a concatenation iff it occurs in one of the parts.
pub proof fn lemma_has_id_add(a: Seq<Fissure>, b: Seq<Fissure>, id: Seq<char>)
    ensures
        has_id(a + b, id) <==> has_id(a, id) || has_id(b, id),
{
    reveal(has_id);
    if has_id(a, id) {
        let i = choose|i: int| 0 <= i < a.len() && (#[trigger] a[i]).id@ == id;
        assert((a + b)[i].id@ == id);
    }
    if has_id(b, id) {
        let i = choose|i: int| 0 <= i < b.len() && (#[trigger] b[i]).id@ == id;
        assert((a + b)[a.len() + i].id@ == id);
    }
    if has_id(a + b, id) {
        let i = choose|i: int| 0 <= i < (a + b).len() && (#[trigger] (a + b)[i]).id@ == id;
        if i < a.len() {
            assert(a[i].id@ == id);
        } else {
            assert(b[i - a.len()].id@ == id);
        }
    }
}

/// An id occurs after a push iff it occurred before or is the pushed one's.
pub proof fn lemma_has_id_push(a: Seq<Fissure>, fissure: Fissure, id: Seq<char>)
    ensures
        has_id(a.push(fissure), id) <==> has_id(a, id) || fissure.id@ == id,
{
    reveal(has_id);
    assert(a.push(fissure) =~= a + seq![fissure]);
    lemma_has_id_add(a, seq![fissure], id);
    if fissure.id@ == id {
        assert(seq![fissure][0].id@ == id);
    }
}

/// The ids of what is retained are the held ids that were fetched again.
pub proof fn lemma_has_id_retained(held: Seq<Fissure>, current: Seq<Fissure>, id: Seq<char>)
    ensures
        has_id(retained(held, current), id) <==> has_id(held, id) && has_id(current, id),
    decreases held.len(),
{
    reveal(Seq::filter);
    if held.len() > 0 {
        let earlier = held.drop_last();
        lemma_has_id_retained(earlier, current, id);
        assert(held =~= earlier.push(held.last()));
        lemma_has_id_push(earlier, held.last(), id);
        lemma_has_id_push(retained(earlier, current), held.last(), id);
    } else {
        lemma_has_id_empty(id);
        assert(held =~= Seq::<Fissure>::empty());
    }
}

/// The ids of what is added are the fetched ids that are not held.
pub proof fn lemma_has_id_added(held: Seq<Fissure>, current: Seq<Fissure>, id: Seq<char>)
    ensures
        has_id(added(held, current), id) <==> has_id(current, id) && !has_id(held, id),
    decreases current.len(),
{
    if current.len() > 0 {
        let earlier = current.drop_last();
        lemma_has_id_added(held, earlier, id);
        assert(current =~= earlier.push(current.last()));
        lemma_has_id_push(earlier, current.last(), id);
        lemma_has_id_push(added(held, earlier), current.last(), id);
    } else {
        lemma_has_id_empty(id);
        assert(current =~= Seq::<Fissure>::empty());
    }
}

/// A filter that every member passes changes nothing.
pub proof fn lemma_filter_keeps_all(fissures: Seq<Fissure>, pred: spec_fn(Fissure) -> bool)
    requires
        forall|i: int| 0 <= i < fissures.len() ==> pred(#[trigger] fissures[i]),
    ensures
        fissures.filter(pred) == fissures,
    decreases fissures.len(),
{
    reveal(Seq::filter);
    if fissures.len() > 0 {
        lemma_filter_keeps_all(fissures.drop_last(), pred);
        assert(fissures =~= fissures.drop_last().push(fissures.last()));
    }
}

/// A filter that no member passes leaves nothing.
pub proof fn lemma_filter_keeps_none(fissures: Seq<Fissure>, pred: spec_fn(Fissure) -> bool)
    requires
        forall|i: int| 0 <= i < fissures.len() ==> !pred(#[trigger] fissures[i]),
    ensures
        fissures.filter(pred) == Seq::<Fissure>::empty(),
    decreases fissures.len(),
{
    reveal(Seq::filter);
    if fissures.len() > 0 {
        lemma_filter_keeps_none(fissures.drop_last(), pred);
    }
}

/// Nothing is added when every fetched id is already held.
pub proof fn lemma_added_none(held: Seq<Fissure>, current: Seq<Fissure>)
    requires
        forall|i: int| 0 <= i < current.len() ==> has_id(held, (#[trigger] current[i]).id@),
    ensures
        added(held, current) == Seq::<Fissure>::empty(),
    decreases current.len(),
{
    if current.len() > 0 {
        lemma_added_none(held, current.drop_last());
    }
}

/// Pushing keeps the ids distinct exactly when the pushed id is new.
pub proof fn lemma_distinct_push(fissures: Seq<Fissure>, fissure: Fissure)
    ensures
        distinct_ids(fissures.push(fissure)) <==> distinct_ids(fissures) && !has_id(
            fissures,
            fissure.id@,
        ),
{
    reveal(has_id);
    let pushed = fissures.push(fissure);
    if distinct_ids(pushed) {
        assert forall|i: int, j: int| 0 <= i < j < fissures.len() implies (#[trigger] fissures[i]).id@
            != (#[trigger] fissures[j]).id@ by {
            assert(pushed[i].id@ != pushed[j].id@);
        }
        if has_id(fissures, fissure.id@) {
            let i = choose|i: int| 0 <= i < fissures.len() && (#[trigger] fissures[i]).id@ == fissure.id@;
            assert(pushed[i].id@ != pushed[fissures.len() as int].id@);
        }
    }
    if distinct_ids(fissures) && !has_id(fissures, fissure.id@) {
        assert forall|i: int, j: int| 0 <= i < j < pushed.len() implies (#[trigger] pushed[i]).id@
            != (#[trigger] pushed[j]).id@ by {
            assert(pushed[i] == fissures[i]);
            if j < fissures.len() {
                assert(pushed[j] == fissures[j]);
            }
        }
    }
}

/// Filtering keeps distinct ids distinct, and brings in no id.
pub proof fn lemma_distinct_filter(fissures: Seq<Fissure>, pred: spec_fn(Fissure) -> bool)
    ensures
        distinct_ids(fissures) ==> distinct_ids(fissures.filter(pred)),
        forall|id: Seq<char>| has_id(fissures.filter(pred), id) ==> has_id(fissures, id),
    decreases fissures.len(),
{
    reveal(Seq::filter);
    if fissures.len() > 0 {
        let earlier = fissures.drop_last();
        let last = fissures.last();
        lemma_distinct_filter(earlier, pred);
        assert(fissures =~= earlier.push(last));
        lemma_distinct_push(earlier, last);
        lemma_distinct_push(earlier.filter(pred), last);
        assert forall|id: Seq<char>| has_id(fissures.filter(pred), id) implies has_id(
            fissures,
            id,
        ) by {
            lemma_has_id_push(earlier, last, id);
            lemma_has_id_push(earlier.filter(pred), last, id);
        }
    }
}

/// Appending what is added to a collection of held ids keeps the ids distinct.
proof fn lemma_distinct_with_added(base: Seq<Fissure>, held: Seq<Fissure>, current: Seq<Fissure>)
    requires
        distinct_ids(base),
        forall|id: Seq<char>| has_id(base, id) ==> has_id(held, id),
    ensures
        distinct_ids(base + added(held, current)),
    decreases current.len(),
{
    if current.len() == 0 {
        assert(base + added(held, current) =~= base);
    } else {
        let earlier = current.drop_last();
        let last = current.last();
        lemma_distinct_with_added(base, held, earlier);
        if !(has_id(held, last.id@) || has_id(earlier, last.id@)) {
            let so_far = base + added(held, earlier);
            assert(base + added(held, current) =~= so_far.push(last));
            lemma_has_id_add(base, added(held, earlier), last.id@);
            lemma_has_id_added(held, earlier, last.id@);
            lemma_distinct_push(so_far, last);
        }
    }
}

} // verus!
