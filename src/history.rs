use vstd::laws_eq::obeys_concrete_eq;
use vstd::prelude::*;

verus! {

/// The mathematical state of a [`History`]: the timeline of visited
/// locations and the index of the current one.
pub struct HistoryModel<T> {
    pub entries: Seq<T>,
    pub cursor: nat,
}

impl<T> HistoryModel<T> {
    /// The cursor stays inside the timeline; an empty timeline has cursor 0.
    pub open spec fn wf(self) -> bool {
        &&& self.entries.len() == 0 ==> self.cursor == 0
        &&& self.entries.len() > 0 ==> self.cursor < self.entries.len()
    }

    pub open spec fn can_back(self) -> bool {
        self.cursor > 0
    }

    /// Room ahead of the cursor; an empty timeline has none.
    pub open spec fn can_forward(self) -> bool {
        self.cursor + 1 < self.entries.len()
    }
}

impl<T: Clone> HistoryModel<T> {
    /// How much of the timeline a navigation keeps: everything up to and
    /// including the current entry, so the forward branch is dropped.
    pub open spec fn kept_len(self) -> nat {
        if self.entries.len() == 0 {
            0
        } else {
            self.cursor + 1
        }
    }

    /// `post` is what navigating from `from` to `to` makes of `self`: nothing
    /// changes for equal locations; otherwise the kept prefix is followed by
    /// copies of `from` and `to`, and the cursor rests on the copy of `to`.
    pub open spec fn navigated(self, from: T, to: T, post: Self) -> bool {
        if from == to {
            post == self
        } else {
            let k = self.kept_len();
            &&& post.entries.len() == k + 2
            &&& post.entries.subrange(0, k as int) == self.entries.subrange(0, k as int)
            &&& cloned(from, post.entries[k as int])
            &&& cloned(to, post.entries[k + 1 as int])
            &&& post.cursor == k + 1
        }
    }

    /// `post` and `r` are what stepping back from `self` gives: the cursor
    /// moves one place down and a copy of the entry there is reported, or,
    /// at the start of the timeline, nothing changes and nothing is reported.
    pub open spec fn stepped_back(self, post: Self, r: Option<T>) -> bool {
        if self.can_back() {
            &&& post.entries == self.entries
            &&& post.cursor == self.cursor - 1
            &&& r is Some
            &&& cloned(self.entries[post.cursor as int], r->0)
        } else {
            post == self && r is None
        }
    }

    /// `post` and `r` are what stepping forward from `self` gives: the
    /// cursor moves one place up and a copy of the entry there is reported,
    /// or, with no room ahead, nothing changes and nothing is reported.
    pub open spec fn stepped_forward(self, post: Self, r: Option<T>) -> bool {
        if self.can_forward() {
            &&& post.entries == self.entries
            &&& post.cursor == self.cursor + 1
            &&& r is Some
            &&& cloned(self.entries[post.cursor as int], r->0)
        } else {
            post == self && r is None
        }
    }
}

/// A linear navigation history: a timeline of locations and a cursor into it.
#[derive(Clone)]
pub struct History<T> {
    history: Vec<T>,
    index: usize,
}

impl<T> View for History<T> {
    type V = HistoryModel<T>;

    closed spec fn view(&self) -> HistoryModel<T> {
        HistoryModel { entries: self.history@, cursor: self.index as nat }
    }
}

impl<T: Clone + PartialEq> History<T> {
    /// An empty history with the cursor at 0.
    pub fn new() -> (r: Self)
        ensures
            r@.entries.len() == 0,
            r@.cursor == 0,
            r@.wf(),
    {
        History { history: Vec::new(), index: 0 }
    }

    /// The timeline, oldest entry first.
    pub fn entries(&self) -> (r: &[T])
        ensures
            r@ == self@.entries,
    {
        self.history.as_slice()
    }

    /// The index of the current entry.
    pub fn cursor(&self) -> (r: usize)
        ensures
            r == self@.cursor,
    {
        self.index
    }

    /// Whether there is an entry before the current one.
    pub fn can_navigate_back(&self) -> (r: bool)
        ensures
            r == self@.can_back(),
    {
        self.index > 0
    }

    /// Whether there is an entry after the current one.
    pub fn can_navigate_forward(&self) -> (r: bool)
        ensures
            r == self@.can_forward(),
    {
        self.index < self.history.len().saturating_sub(1)
    }

    /// Records a move from `current_nav` to `nav` and reports `nav`; a move
    /// to the location already current is ignored. When the cursor is not
    /// at the end of the timeline, the entries after it are dropped first.
    /// `T`'s `==` must agree with equality of values.
    pub fn navigate(&mut self, current_nav: &T, nav: &T) -> (r: Option<T>)
        requires
            old(self)@.wf(),
            obeys_concrete_eq::<T>(),
        ensures
            final(self)@.wf(),
            old(self)@.navigated(*current_nav, *nav, final(self)@),
            r is None <==> *current_nav == *nav,
            r is Some ==> cloned(*nav, r->0),
    {
        proof {
            reveal(obeys_concrete_eq);
        }
        if current_nav.eq(nav) {
            return None;
        }
        let ghost pre = self@;
        let len = self.history.len();
        if self.index + 1 < len {
            self.history.truncate(self.index + 1);
        }
        assert(self.history@ == pre.entries.subrange(0, pre.kept_len() as int));
        let from = current_nav.clone();
        let to = nav.clone();
        self.history.push(from);
        self.history.push(to);
        self.index = self.history.len() - 1;
        assert(self.history@.subrange(0, pre.kept_len() as int) =~= pre.entries.subrange(
            0,
            pre.kept_len() as int,
        ));
        Some(nav.clone())
    }

    /// Moves the cursor one place back and reports the entry there.
    pub fn navigate_back(&mut self) -> (r: Option<T>)
        requires
            old(self)@.wf(),
        ensures
            final(self)@.wf(),
            old(self)@.stepped_back(final(self)@, r),
    {
        if self.can_navigate_back() {
            self.index = self.index - 1;
            Some(self.history[self.index].clone())
        } else {
            None
        }
    }

    /// Moves the cursor one place forward and reports the entry there.
    pub fn navigate_forward(&mut self) -> (r: Option<T>)
        requires
            old(self)@.wf(),
        ensures
            final(self)@.wf(),
            old(self)@.stepped_forward(final(self)@, r),
    {
        let len = self.history.len();
        if self.index + 1 < len {
            self.index = self.index + 1;
            Some(self.history[self.index].clone())
        } else {
            None
        }
    }
}

} // verus!
