//! Delivery order: announcements go out in chronological order, and those
//! sent at the same instant keep the order in which they were found.
use crate::announcement::{Announcement, AnnouncementView};
use itertools::Itertools;
use vstd::prelude::*;

verus! {

/// `a` placed before the first element of `s` that is not earlier than it.
pub open spec fn insert_by_time(a: AnnouncementView, s: Seq<AnnouncementView>) -> Seq<
    AnnouncementView,
>
    decreases s.len(),
{
    if s.len() == 0 {
        seq![a]
    } else if a.timestamp <= s[0].timestamp {
        seq![a] + s
    } else {
        seq![s[0]] + insert_by_time(a, s.drop_first())
    }
}

/// `s` in ascending order of timestamp, equal timestamps in their order in `s`.
pub open spec fn by_time(s: Seq<AnnouncementView>) -> Seq<AnnouncementView>
    decreases s.len(),
{
    if s.len() == 0 {
        s
    } else {
        insert_by_time(s[0], by_time(s.drop_first()))
    }
}

/// Whether the timestamps of `s` never decrease.
pub open spec fn is_chronological(s: Seq<AnnouncementView>) -> bool {
    forall|i: int, j: int| 0 <= i < j < s.len() ==> s[i].timestamp <= s[j].timestamp
}

/// The elements of `s` sent at `t`, in their order in `s`.
pub open spec fn sent_at(s: Seq<AnnouncementView>, t: i64) -> Seq<AnnouncementView> {
    s.filter(|a: AnnouncementView| a.timestamp == t)
}

pub open spec fn views(v: Seq<Announcement>) -> Seq<AnnouncementView> {
    v.map_values(|a: Announcement| a@)
}

/// Relies on Itertools::sorted_by_key, which sorts with the stable
/// `slice::sort_by_key`: ascending by key, equal keys in input order.
#[verifier::external_body]
fn sorted_by_timestamp(items: Vec<Announcement>) -> (r: Vec<Announcement>)
    ensures
        views(r@) == by_time(views(items@)),
{
    items.into_iter().sorted_by_key(|a| a.timestamp).collect()
}

/// The announcements in the order of delivery: chronological, and stable.
pub fn order(items: Vec<Announcement>) -> (r: Vec<Announcement>)
    ensures
        views(r@) == by_time(views(items@)),
        is_chronological(views(r@)),
        forall|t: i64| #[trigger] sent_at(views(r@), t) == sent_at(views(items@), t),
{
    let r = sorted_by_timestamp(items);
    proof {
        lemma_by_time_chronological(views(items@));
        assert forall|t: i64| #[trigger] sent_at(views(r@), t) == sent_at(views(items@), t) by {
            lemma_by_time_stable(views(items@), t);
        }
    }
    r
}

proof fn lemma_insert_chronological(a: AnnouncementView, s: Seq<AnnouncementView>)
    requires
        is_chronological(s),
    ensures
        is_chronological(insert_by_time(a, s)),
        insert_by_time(a, s).len() == s.len() + 1,
        forall|i: int|
            0 <= i < insert_by_time(a, s).len() ==> #[trigger] insert_by_time(a, s)[i] == a
                || s.contains(insert_by_time(a, s)[i]),
    decreases s.len(),
{
    if s.len() > 0 && a.timestamp > s[0].timestamp {
        let rest = s.drop_first();
        lemma_insert_chronological(a, rest);
        let ins = insert_by_time(a, rest);
        assert forall|i: int| 0 <= i < ins.len() implies s[0].timestamp <= #[trigger] ins[i].timestamp by {
            if ins[i] != a {
                let k = choose|k: int| 0 <= k < rest.len() && rest[k] == ins[i];
                assert(rest[k] == s[k + 1]);
            }
        }
        let r = insert_by_time(a, s);
        assert(r == seq![s[0]] + ins);
        assert forall|i: int| 0 <= i < r.len() implies #[trigger] r[i] == a || s.contains(r[i]) by {
            if i > 0 && r[i] != a {
                assert(r[i] == ins[i - 1]);
                let k = choose|k: int| 0 <= k < rest.len() && rest[k] == ins[i - 1];
                assert(s[k + 1] == r[i]);
            } else if i == 0 {
                assert(s[0] == r[0]);
            }
        }
    } else if s.len() > 0 {
        let r = insert_by_time(a, s);
        assert forall|i: int| 0 <= i < r.len() implies #[trigger] r[i] == a || s.contains(r[i]) by {
            if i > 0 {
                assert(r[i] == s[i - 1]);
            }
        }
    }
}

/// The delivery order is chronological.
pub proof fn lemma_by_time_chronological(s: Seq<AnnouncementView>)
    ensures
        is_chronological(by_time(s)),
        by_time(s).len() == s.len(),
    decreases s.len(),
{
    if s.len() > 0 {
        lemma_by_time_chronological(s.drop_first());
        lemma_insert_chronological(s[0], by_time(s.drop_first()));
    }
}

proof fn lemma_insert_sent_at(a: AnnouncementView, s: Seq<AnnouncementView>, t: i64)
    ensures
        sent_at(insert_by_time(a, s), t) == if a.timestamp == t {
            seq![a] + sent_at(s, t)
        } else {
            sent_at(s, t)
        },
    decreases s.len(),
{
    let pred = |x: AnnouncementView| x.timestamp == t;
    reveal_with_fuel(Seq::filter, 2);
    assert(seq![a].drop_last() =~= Seq::<AnnouncementView>::empty());
    if s.len() == 0 {
        assert(s.filter(pred) =~= Seq::<AnnouncementView>::empty());
    } else if a.timestamp <= s[0].timestamp {
        Seq::filter_distributes_over_add(seq![a], s, pred);
    } else {
        let rest = s.drop_first();
        lemma_insert_sent_at(a, rest, t);
        assert(seq![s[0]].drop_last() =~= Seq::<AnnouncementView>::empty());
        Seq::filter_distributes_over_add(seq![s[0]], insert_by_time(a, rest), pred);
        assert(s =~= seq![s[0]] + rest);
        Seq::filter_distributes_over_add(seq![s[0]], rest, pred);
        if a.timestamp == t {
            assert(s[0].timestamp != t);
        }
    }
}

/// Announcements sent at the same instant keep their relative order.
pub proof fn lemma_by_time_stable(s: Seq<AnnouncementView>, t: i64)
    ensures
        sent_at(by_time(s), t) == sent_at(s, t),
    decreases s.len(),
{
    let pred = |x: AnnouncementView| x.timestamp == t;
    if s.len() == 0 {
        assert(s.filter(pred) =~= s);
    } else {
        let rest = s.drop_first();
        lemma_by_time_stable(rest, t);
        lemma_insert_sent_at(s[0], by_time(rest), t);
        reveal_with_fuel(Seq::filter, 2);
        assert(seq![s[0]].drop_last() =~= Seq::<AnnouncementView>::empty());
        assert(s =~= seq![s[0]] + rest);
        Seq::filter_distributes_over_add(seq![s[0]], rest, pred);
    }
}

/// Ordering what is already in delivery order changes nothing.
pub proof fn lemma_by_time_idempotent(s: Seq<AnnouncementView>)
    ensures
        by_time(by_time(s)) == by_time(s),
{
    lemma_by_time_chronological(s);
    lemma_chronological_unchanged(by_time(s));
}

/// A chronological sequence is already in delivery order.
pub proof fn lemma_chronological_unchanged(s: Seq<AnnouncementView>)
    requires
        is_chronological(s),
    ensures
        by_time(s) == s,
    decreases s.len(),
{
    if s.len() > 0 {
        let rest = s.drop_first();
        lemma_chronological_unchanged(rest);
        if rest.len() > 0 {
            assert(s[0].timestamp <= rest[0].timestamp);
        } else {
            assert(seq![s[0]] =~= s);
        }
        assert(seq![s[0]] + rest =~= s);
    }
}

} // verus!
