//! Change detection between two searches of the mailbox.
use vstd::prelude::*;

verus! {

/// The identifiers of `current` that `previous` lacks, in the order of `current`.
pub open spec fn arrived(previous: Seq<u32>, current: Seq<u32>) -> Seq<u32> {
    current.filter(absent_from(previous))
}

/// Holds of the identifiers that `previous` lacks.
pub open spec fn absent_from(previous: Seq<u32>) -> spec_fn(u32) -> bool {
    |u: u32| !previous.contains(u)
}

fn contains_uid(v: &Vec<u32>, x: u32) -> (r: bool)
    ensures
        r == v@.contains(x),
{
    let mut i: usize = 0;
    while i < v.len()
        invariant
            i <= v@.len(),
            forall|j: int| 0 <= j < i ==> v@[j] != x,
        decreases v@.len() - i,
    {
        if v[i] == x {
            return true;
        }
        i = i + 1;
    }
    false
}

/// The identifiers that appeared since the previous search: those of
/// `current` absent from `previous`. Identifiers that disappeared are ignored.
pub fn new_uids(previous: &Vec<u32>, current: &Vec<u32>) -> (r: Vec<u32>)
    ensures
        r@ == arrived(previous@, current@),
        r@.to_set() == current@.to_set().difference(previous@.to_set()),
{
    let mut r: Vec<u32> = Vec::new();
    let mut i: usize = 0;
    while i < current.len()
        invariant
            i <= current@.len(),
            r@ == arrived(previous@, current@.take(i as int)),
        decreases current@.len() - i,
    {
        let u = current[i];
        let seen = contains_uid(previous, u);
        proof {
            let pred = absent_from(previous@);
            assert(current@.take(i as int + 1) =~= current@.take(i as int) + seq![u]);
            Seq::filter_distributes_over_add(current@.take(i as int), seq![u], pred);
            reveal_with_fuel(Seq::filter, 2);
            assert(seq![u].drop_last() =~= Seq::<u32>::empty());
            assert(seq![u].filter(pred) == if pred(u) { seq![u] } else { Seq::empty() });
            assert(pred(u) == !seen);
        }
        if !seen {
            r.push(u);
        }
        assert(r@ =~= arrived(previous@, current@.take(i as int + 1)));
        i = i + 1;
    }
    assert(current@.take(current@.len() as int) =~= current@);
    proof {
        lemma_arrived_set(previous@, current@);
    }
    r
}

/// The set of what `arrived` lists is the set difference.
pub proof fn lemma_arrived_set(previous: Seq<u32>, current: Seq<u32>)
    ensures
        arrived(previous, current).to_set() == current.to_set().difference(previous.to_set()),
{
    let pred = absent_from(previous);
    broadcast use vstd::seq_lib::group_filter_ensures;
    assert forall|u: u32| #[trigger] arrived(previous, current).contains(u)
        implies current.to_set().difference(previous.to_set()).contains(u) by {
        current.lemma_filter_contains_rev(pred, u);
        let k = choose|k: int| 0 <= k < arrived(previous, current).len() && arrived(previous, current)[k] == u;
        current.lemma_filter_pred(pred, k);
    }
    assert forall|u: u32| current.to_set().difference(previous.to_set()).contains(u)
        implies #[trigger] arrived(previous, current).contains(u) by {
        let k = choose|k: int| 0 <= k < current.len() && current[k] == u;
        current.lemma_filter_contains(pred, k);
    }
    assert(arrived(previous, current).to_set() =~= current.to_set().difference(previous.to_set()));
}

/// Against a superset of the previous identifiers, the new ones are exactly
/// the set difference, and they number the difference of the two counts.
pub proof fn lemma_new_uids_difference(previous: Seq<u32>, current: Seq<u32>)
    requires
        previous.to_set().subset_of(current.to_set()),
    ensures
        arrived(previous, current).to_set() == current.to_set().difference(previous.to_set()),
        arrived(previous, current).to_set().len() + previous.to_set().len()
            == current.to_set().len(),
{
    lemma_arrived_set(previous, current);
    let a = current.to_set();
    let b = previous.to_set();
    vstd::set_lib::lemma_set_difference_len(a, b);
    assert(a.intersect(b) =~= b);
}

/// A search that found the same identifiers again yields no new ones.
pub proof fn lemma_new_uids_unchanged(uids: Seq<u32>)
    ensures
        arrived(uids, uids).len() == 0,
{
    lemma_arrived_set(uids, uids);
    assert(uids.to_set().difference(uids.to_set()) =~= Set::empty());
    let z = arrived(uids, uids);
    if z.len() > 0 {
        assert(z.to_set().contains(z[0]));
    }
}

} // verus!
