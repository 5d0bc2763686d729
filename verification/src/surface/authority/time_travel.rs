//! Time Travel Engine — forensic history of execution snapshots.
//!
//! Keeps the most recent snapshots, oldest first, and a view position into them.

use vstd::prelude::*;

verus! {

pub struct TimeTravelEngine<S> {
    /// History of snapshots, oldest first.
    pub history: std::collections::VecDeque<S>,
    /// Maximum number of snapshots to keep.
    pub max_history: usize,
    /// Current view index in history.
    pub current_index: usize,
}

/// The history after one more snapshot: the oldest one leaves when the history is full.
pub open spec fn pushed_history<S>(history: Seq<S>, max_history: usize, state: S) -> Seq<S> {
    if history.len() >= max_history && history.len() > 0 {
        history.drop_first().push(state)
    } else {
        history.push(state)
    }
}

impl<S> TimeTravelEngine<S> {
    /// The history holds no more snapshots than the limit allows
    /// (a limit of 0 still keeps the latest snapshot).
    pub open spec fn within_limit(&self) -> bool {
        self.history@.len() <= if self.max_history == 0 { 1 } else { self.max_history as int }
    }

    pub fn new(max_history: usize) -> (e: Self)
        ensures
            e.history@ == Seq::<S>::empty(),
            e.max_history == max_history,
            e.current_index == 0,
            e.within_limit(),
    {
        TimeTravelEngine {
            history: std::collections::VecDeque::with_capacity(max_history),
            max_history,
            current_index: 0,
        }
    }

    /// Records a snapshot and moves the view to it.
    pub fn push_snapshot(&mut self, state: S)
        ensures
            final(self).history@ == pushed_history(old(self).history@, old(self).max_history, state),
            final(self).max_history == old(self).max_history,
            final(self).current_index == final(self).history@.len() - 1,
            old(self).within_limit() ==> final(self).within_limit(),
            final(self).history@.len() == if old(self).history@.len() < (if old(self).max_history == 0 {
                1
            } else {
                old(self).max_history as int
            }) {
                old(self).history@.len() + 1int
            } else {
                old(self).history@.len() as int
            },
            final(self).history@.last() == state,
            final(self).history@.drop_last() == old(self).history@.skip(
                old(self).history@.len() - (final(self).history@.len() - 1),
            ),
    {
        proof {
            lemma_push_drops_at_most_oldest(self.history@, self.max_history, state);
        }
        if self.history.len() >= self.max_history {
            let _ = self.history.pop_front();
        }
        self.history.push_back(state);
        self.current_index = self.history.len() - 1;
    }

    /// The snapshot in view, if the view index is inside the history.
    pub fn get_current_state(&self) -> (r: Option<&S>)
        ensures
            r == if self.current_index < self.history@.len() {
                Some(&self.history@[self.current_index as int])
            } else {
                None
            },
    {
        if self.current_index < self.history.len() {
            Some(&self.history[self.current_index])
        } else {
            None
        }
    }

    /// Moves the view to `index`; an index outside the history is ignored.
    pub fn scrub(&mut self, index: usize)
        ensures
            final(self).history@ == old(self).history@,
            final(self).max_history == old(self).max_history,
            final(self).current_index == if index < old(self).history@.len() {
                index
            } else {
                old(self).current_index
            },
    {
        if index < self.history.len() {
            self.current_index = index;
        }
    }

    /// The state change of a normalized seek: unless the history is empty, the view
    /// moves to `index` (the rounded position the caller computed), unchecked.
    pub fn seek_index(&mut self, index: usize)
        ensures
            final(self).history@ == old(self).history@,
            final(self).max_history == old(self).max_history,
            final(self).current_index == if old(self).history@.len() == 0 {
                old(self).current_index
            } else {
                index
            },
    {
        if self.history.len() == 0 {
            return;
        }
        self.current_index = index;
    }
}

/// Law: a snapshot that was just pushed is the one in view.
pub proof fn lemma_push_then_view<S>(history: Seq<S>, max_history: usize, state: S)
    ensures
        ({
            let h = pushed_history(history, max_history, state);
            h.len() > 0 && h[h.len() - 1] == state
        }),
{
}

/// Law: pushing keeps the most recent snapshots in recording order — the new history
/// is a suffix of the old one followed by the new snapshot.
pub proof fn lemma_push_keeps_recent<S>(history: Seq<S>, max_history: usize, state: S)
    ensures
        ({
            let h = pushed_history(history, max_history, state);
            let kept = h.drop_last();
            &&& kept.len() <= history.len()
            &&& kept == history.skip(history.len() - kept.len())
        }),
{
    let h = pushed_history(history, max_history, state);
    if history.len() >= max_history && history.len() > 0 {
        assert(h.drop_last() =~= history.skip(1));
    } else {
        assert(h.drop_last() =~= history);
        assert(history.skip(0) =~= history);
    }
}

/// Law: a push drops at most the oldest snapshot. The history grows by one while it
/// is below its limit (at least 1) and otherwise keeps its length; everything but
/// the oldest snapshot stays, in order, followed by the new one. For a history within
/// its limit the new length is min(old length + 1, max(limit, 1)).
pub proof fn lemma_push_drops_at_most_oldest<S>(history: Seq<S>, max_history: usize, state: S)
    ensures
        ({
            let h = pushed_history(history, max_history, state);
            let limit: int = if max_history == 0 { 1 } else { max_history as int };
            &&& h.len() == if history.len() < limit { history.len() + 1int } else { history.len() as int }
            &&& h.len() >= history.len()
            &&& h.last() == state
            &&& h.drop_last() == history.skip(history.len() - (h.len() - 1))
            &&& history.len() <= limit ==> h.len() == if history.len() + 1 < limit {
                history.len() + 1int
            } else {
                limit
            }
        }),
{
    let h = pushed_history(history, max_history, state);
    if history.len() >= max_history && history.len() > 0 {
        assert(h.drop_last() =~= history.skip(1));
    } else {
        assert(h.drop_last() =~= history);
        assert(history.skip(0) =~= history);
    }
}

} // verus!
