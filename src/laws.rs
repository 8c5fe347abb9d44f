//! Laws that relate the operations of a [`History`](crate::History), stated
//! over its model.
use crate::history::HistoryModel;
use vstd::prelude::*;

verus! {

/// Cloning a `T` gives back an equal value.
pub open spec fn clone_is_copy<T: Clone>() -> bool {
    forall|a: T, b: T| #[trigger] cloned(a, b) ==> a == b
}

/// After a navigation between two different locations one can step back,
/// and the step back reports a copy of the stored copy of the departed
/// location; where cloning gives back an equal value, it reports exactly the
/// departed location.
pub proof fn lemma_back_after_navigate<T: Clone>(
    pre: HistoryModel<T>,
    from: T,
    to: T,
    mid: HistoryModel<T>,
    post: HistoryModel<T>,
    r: Option<T>,
)
    requires
        pre.wf(),
        from != to,
        pre.navigated(from, to, mid),
        mid.stepped_back(post, r),
    ensures
        mid.can_back(),
        r is Some,
        cloned(from, mid.entries[post.cursor as int]),
        cloned(mid.entries[post.cursor as int], r->0),
        clone_is_copy::<T>() ==> r == Some(from),
{
}

/// Navigating to the location one is already at changes neither the length
/// of the timeline nor the cursor.
pub proof fn lemma_self_navigation<T: Clone>(
    pre: HistoryModel<T>,
    at: T,
    post: HistoryModel<T>,
)
    requires
        pre.navigated(at, at, post),
    ensures
        post.entries.len() == pre.entries.len(),
        post.cursor == pre.cursor,
{
}

/// Navigating from `from` to `to`, stepping back, then navigating from `from`
/// to another location `other` drops the branch that led to `to`: its slot
/// now holds a copy of `from`, the cursor rests at the end of the timeline,
/// and stepping forward reports nothing and changes nothing. Where cloning
/// gives back an equal value and `to` occurs neither before the navigation
/// point nor as `from` or `other`, `to` is gone from the timeline.
pub proof fn lemma_branch_pruned<T: Clone>(
    s0: HistoryModel<T>,
    from: T,
    to: T,
    other: T,
    s1: HistoryModel<T>,
    s2: HistoryModel<T>,
    back: Option<T>,
    s3: HistoryModel<T>,
)
    requires
        s0.wf(),
        from != to,
        from != other,
        s0.navigated(from, to, s1),
        s1.stepped_back(s2, back),
        s2.navigated(from, other, s3),
    ensures
        s3.entries.len() == s1.entries.len() + 1,
        s3.entries.subrange(0, s2.cursor + 1 as int) == s1.entries.subrange(0, s2.cursor + 1 as int),
        cloned(from, s3.entries[s2.cursor + 1 as int]),
        cloned(other, s3.entries[s2.cursor + 2 as int]),
        !s3.can_forward(),
        forall|post: HistoryModel<T>, r: Option<T>|
            #[trigger] s3.stepped_forward(post, r) ==> post == s3 && r is None,
        clone_is_copy::<T>() && to != other && !s0.entries.subrange(
            0,
            s0.kept_len() as int,
        ).contains(to) ==> !s3.entries.contains(to),
{
    let k = s0.kept_len() as int;
    assert(s2.cursor == k);
    if clone_is_copy::<T>() && to != other && !s0.entries.subrange(0, k).contains(to) {
        assert(cloned(from, s1.entries[k]));
        assert(cloned(from, s3.entries[k + 1]));
        assert(cloned(other, s3.entries[k + 2]));
        assert forall|i: int| 0 <= i < s3.entries.len() implies s3.entries[i] != to by {
            if i < k {
                assert(s3.entries[i] == s3.entries.subrange(0, k + 1)[i]);
                assert(s1.entries[i] == s1.entries.subrange(0, k + 1)[i]);
                assert(s1.entries[i] == s1.entries.subrange(0, k)[i]);
                assert(s0.entries.subrange(0, k)[i] == s0.entries[i]);
            } else if i == k {
                assert(s3.entries[i] == s3.entries.subrange(0, k + 1)[i]);
            }
        }
    }
}

/// A fresh history can step neither back nor forward, and trying either
/// reports nothing and changes nothing.
pub proof fn lemma_fresh_history<T: Clone>(m: HistoryModel<T>)
    requires
        m.entries.len() == 0,
        m.cursor == 0,
    ensures
        !m.can_back(),
        !m.can_forward(),
        forall|post: HistoryModel<T>, r: Option<T>|
            #[trigger] m.stepped_back(post, r) ==> post == m && r is None,
        forall|post: HistoryModel<T>, r: Option<T>|
            #[trigger] m.stepped_forward(post, r) ==> post == m && r is None,
{
}

/// Stepping back and then forward, from a state that can step back, brings
/// the history back to that state, and the step forward reports a copy of the
/// entry that was current before.
pub proof fn lemma_back_then_forward<T: Clone>(
    m: HistoryModel<T>,
    m1: HistoryModel<T>,
    r1: Option<T>,
    m2: HistoryModel<T>,
    r2: Option<T>,
)
    requires
        m.wf(),
        m.can_back(),
        m.stepped_back(m1, r1),
        m1.stepped_forward(m2, r2),
    ensures
        m2 == m,
        r2 is Some,
        cloned(m.entries[m.cursor as int], r2->0),
{
}

} // verus!
