//! The interaction kernel's selection and keyboard-focus logic.
//!
//! Hit testing against geometry happens before these functions are called; they
//! decide, from identifiers alone, how the selection and the focus change.

use vstd::prelude::*;
use crate::surface::model::stable_id::SurfaceId;
use crate::surface::runtime::input::Key;

verus! {

/// The position of the first occurrence of `id` in `ids`.
pub open spec fn first_pos(ids: Seq<SurfaceId>, id: SurfaceId) -> Option<int>
    decreases ids.len(),
{
    if ids.len() == 0 {
        None
    } else if ids[0] == id {
        Some(0)
    } else {
        match first_pos(ids.drop_first(), id) {
            Some(p) => Some(p + 1),
            None => None,
        }
    }
}

/// No identifier occurs twice.
pub open spec fn no_duplicates(ids: Seq<SurfaceId>) -> bool {
    forall|i: int, j: int| 0 <= i < j < ids.len() ==> ids[i] != ids[j]
}

proof fn lemma_first_pos(ids: Seq<SurfaceId>, id: SurfaceId)
    ensures
        match first_pos(ids, id) {
            Some(p) => 0 <= p < ids.len() && ids[p] == id && forall|j: int| 0 <= j < p ==> ids[j] != id,
            None => !ids.contains(id),
        },
    decreases ids.len(),
{
    if ids.len() > 0 {
        lemma_first_pos(ids.drop_first(), id);
        if ids[0] != id {
            match first_pos(ids.drop_first(), id) {
                Some(p) => {
                    assert forall|j: int| 0 <= j < p + 1 implies ids[j] != id by {
                        if j > 0 {
                            assert(ids[j] == ids.drop_first()[j - 1]);
                        }
                    }
                },
                None => {
                    assert forall|j: int| 0 <= j < ids.len() implies ids[j] != id by {
                        if j > 0 {
                            assert(ids[j] == ids.drop_first()[j - 1]);
                        }
                    }
                },
            }
        }
    }
}

/// The index of the first occurrence of `id`.
pub fn position_of(ids: &[SurfaceId], id: SurfaceId) -> (r: Option<usize>)
    ensures
        match r {
            Some(i) => first_pos(ids@, id) == Some(i as int),
            None => first_pos(ids@, id) is None,
        },
{
    proof {
        lemma_first_pos(ids@, id);
    }
    let mut i: usize = 0;
    while i < ids.len()
        invariant
            i <= ids@.len(),
            forall|j: int| 0 <= j < i ==> ids@[j] != id,
            match first_pos(ids@, id) {
                Some(p) => 0 <= p < ids@.len() && ids@[p] == id && forall|j: int|
                    0 <= j < p ==> ids@[j] != id,
                None => !ids@.contains(id),
            },
        decreases ids@.len() - i,
    {
        if ids[i] == id {
            return Some(i);
        }
        i = i + 1;
    }
    None
}

/// Whether `id` occurs in `ids`.
pub fn contains_id(ids: &[SurfaceId], id: SurfaceId) -> (b: bool)
    ensures
        b == ids@.contains(id),
{
    proof {
        lemma_first_pos(ids@, id);
    }
    position_of(ids, id).is_some()
}

/// The identifiers of the selected nodes, in selection order.
#[derive(Debug, Clone)]
pub struct SelectionState {
    pub ids: Vec<SurfaceId>,
}

/// The selection after clicking node `id`. Without shift, an unselected node becomes
/// the only selection and a selected one leaves it as it is; with shift, the node is
/// toggled (its first occurrence removed, or appended).
pub open spec fn clicked_selection(ids: Seq<SurfaceId>, id: SurfaceId, is_shift: bool) -> Seq<SurfaceId> {
    if !is_shift {
        if ids.contains(id) {
            ids
        } else {
            seq![id]
        }
    } else {
        match first_pos(ids, id) {
            Some(p) => ids.remove(p),
            None => ids.push(id),
        }
    }
}

/// The selection after a box selection over `hits`: each hit not yet selected is
/// appended, in hit order.
pub open spec fn box_selection(ids: Seq<SurfaceId>, hits: Seq<SurfaceId>) -> Seq<SurfaceId>
    decreases hits.len(),
{
    if hits.len() == 0 {
        ids
    } else {
        let before = box_selection(ids, hits.drop_last());
        if before.contains(hits.last()) {
            before
        } else {
            before.push(hits.last())
        }
    }
}

impl Default for SelectionState {
    /// Nothing selected.
    fn default() -> (s: Self)
        ensures
            s.ids@ == Seq::<SurfaceId>::empty(),
    {
        SelectionState { ids: Vec::new() }
    }
}

impl SelectionState {
    pub fn new() -> (s: Self)
        ensures
            s.ids@ == Seq::<SurfaceId>::empty(),
    {
        SelectionState { ids: Vec::new() }
    }

    /// A click on a node. Returns whether the selection is announced (a select
    /// intent carrying the new selection).
    pub fn click_node(&mut self, id: SurfaceId, is_shift: bool) -> (announce: bool)
        ensures
            final(self).ids@ == clicked_selection(old(self).ids@, id, is_shift),
            announce == (is_shift || !old(self).ids@.contains(id)),
            !is_shift && old(self).ids@.contains(id) ==> final(self).ids@ == old(self).ids@,
            !is_shift && !old(self).ids@.contains(id) ==> final(self).ids@ == seq![id],
    {
        if !is_shift {
            if !contains_id(self.ids.as_slice(), id) {
                self.ids = vec![id];
                proof {
                    assert(final(self).ids@ =~= seq![id]);
                }
                true
            } else {
                false
            }
        } else {
            proof {
                lemma_first_pos(self.ids@, id);
            }
            match position_of(self.ids.as_slice(), id) {
                Some(pos) => {
                    self.ids.remove(pos);
                    true
                },
                None => {
                    self.ids.push(id);
                    true
                },
            }
        }
    }

    /// A click on empty canvas: without shift the selection is cleared and announced.
    pub fn click_empty(&mut self, is_shift: bool) -> (announce: bool)
        ensures
            final(self).ids@ == if is_shift { old(self).ids@ } else { Seq::<SurfaceId>::empty() },
            announce == !is_shift,
    {
        if !is_shift {
            self.ids.clear();
            true
        } else {
            false
        }
    }

    /// The end of a box selection: the nodes hit are added, skipping those already selected.
    pub fn add_box_selection(&mut self, hits: &[SurfaceId])
        ensures
            final(self).ids@ == box_selection(old(self).ids@, hits@),
    {
        let mut i: usize = 0;
        while i < hits.len()
            invariant
                i <= hits@.len(),
                self.ids@ == box_selection(old(self).ids@, hits@.take(i as int)),
            decreases hits@.len() - i,
        {
            let h = hits[i];
            proof {
                assert(hits@.take(i + 1).drop_last() =~= hits@.take(i as int));
            }
            if !contains_id(self.ids.as_slice(), h) {
                self.ids.push(h);
            }
            i = i + 1;
        }
        proof {
            assert(hits@.take(hits@.len() as int) =~= hits@);
        }
    }
}

/// Law: every selection change keeps the selection free of duplicates.
pub proof fn lemma_selection_no_duplicates(ids: Seq<SurfaceId>, id: SurfaceId, is_shift: bool, hits: Seq<SurfaceId>)
    requires
        no_duplicates(ids),
    ensures
        no_duplicates(clicked_selection(ids, id, is_shift)),
        no_duplicates(box_selection(ids, hits)),
    decreases hits.len(),
{
    lemma_first_pos(ids, id);
    if hits.len() > 0 {
        lemma_selection_no_duplicates(ids, id, is_shift, hits.drop_last());
    }
}

proof fn lemma_toggle_membership(ids: Seq<SurfaceId>, id: SurfaceId, x: SurfaceId)
    requires
        no_duplicates(ids),
    ensures
        clicked_selection(ids, id, true).contains(x) == if x == id {
            !ids.contains(id)
        } else {
            ids.contains(x)
        },
{
    lemma_first_pos(ids, id);
    let t = clicked_selection(ids, id, true);
    match first_pos(ids, id) {
        Some(p) => {
            if x == id {
                assert forall|j: int| 0 <= j < t.len() implies t[j] != id by {
                    if j >= p {
                        assert(t[j] == ids[j + 1]);
                    }
                }
            } else {
                if ids.contains(x) {
                    let k = choose|k: int| 0 <= k < ids.len() && ids[k] == x;
                    if k < p {
                        assert(t[k] == x);
                    } else {
                        assert(t[k - 1] == x);
                    }
                }
                if t.contains(x) {
                    let k = choose|k: int| 0 <= k < t.len() && t[k] == x;
                    if k < p {
                        assert(ids[k] == x);
                    } else {
                        assert(ids[k + 1] == x);
                    }
                }
            }
        },
        None => {
            assert(t[t.len() - 1] == id);
            if x != id && t.contains(x) {
                let k = choose|k: int| 0 <= k < t.len() && t[k] == x;
                assert(ids[k] == x);
            }
            if ids.contains(x) {
                let k = choose|k: int| 0 <= k < ids.len() && ids[k] == x;
                assert(t[k] == x);
            }
        },
    }
}

/// Law: a click without shift selects the clicked node. On a node that is already
/// selected the selection stays exactly as it was (nothing is dropped); on any other
/// node it becomes that node alone.
pub proof fn lemma_plain_click(ids: Seq<SurfaceId>, id: SurfaceId)
    ensures
        clicked_selection(ids, id, false).contains(id),
        ids.contains(id) ==> clicked_selection(ids, id, false) == ids,
        !ids.contains(id) ==> clicked_selection(ids, id, false) == seq![id],
        clicked_selection(ids, id, false).len() == if ids.contains(id) { ids.len() } else { 1 },
{
    assert(seq![id][0] == id);
}

/// Law: a shift-click toggles membership, so two shift-clicks on the same node
/// leave the set of selected nodes as it was.
pub proof fn lemma_shift_click_toggles(ids: Seq<SurfaceId>, id: SurfaceId, other: SurfaceId)
    requires
        no_duplicates(ids),
    ensures
        clicked_selection(ids, id, true).contains(id) == !ids.contains(id),
        clicked_selection(clicked_selection(ids, id, true), id, true).contains(other) == ids.contains(other),
{
    let once = clicked_selection(ids, id, true);
    lemma_toggle_membership(ids, id, id);
    lemma_toggle_membership(ids, id, other);
    lemma_selection_no_duplicates(ids, id, true, Seq::empty());
    lemma_toggle_membership(once, id, other);
}

/// The index that keyboard navigation moves the focus to among `n > 0` widgets:
/// Tab goes to the next one (wrapping), Shift+Tab to the previous one (wrapping);
/// with nothing focused, Tab starts at the first and Shift+Tab at the last.
pub open spec fn focus_step(current: Option<int>, n: int, backwards: bool) -> int {
    match current {
        Some(i) => if backwards {
            if i == 0 { n - 1 } else { i - 1 }
        } else {
            (i + 1) % n
        },
        None => if backwards { n - 1 } else { 0 },
    }
}

/// The focused widget's position, when it is among `ids`.
pub open spec fn focus_pos(ids: Seq<SurfaceId>, focused: Option<SurfaceId>) -> Option<int> {
    match focused {
        Some(id) => first_pos(ids, id),
        None => None,
    }
}

/// Commands that keys issue to the host.
#[derive(Debug, Clone, Copy, PartialEq, Eq, Structural)]
pub enum KeyCommand {
    Commit,
    Cancel,
    DeleteSelected,
}

/// The focus after a key press, and the command it issues.
pub open spec fn key_outcome(
    focused: Option<SurfaceId>,
    key: Key,
    shift: bool,
    widget_ids: Seq<SurfaceId>,
) -> (Option<SurfaceId>, Option<KeyCommand>) {
    match key {
        Key::Tab => if widget_ids.len() == 0 {
            (focused, None)
        } else {
            (
                Some(widget_ids[focus_step(focus_pos(widget_ids, focused), widget_ids.len() as int, shift)]),
                None,
            )
        },
        Key::Enter => (focused, Some(KeyCommand::Commit)),
        Key::Escape => (None, Some(KeyCommand::Cancel)),
        Key::Delete | Key::Backspace => (focused, Some(KeyCommand::DeleteSelected)),
        _ => (focused, None),
    }
}

/// Handles a key press: Tab/Shift+Tab move the focus through the widgets, Enter
/// commits, Escape cancels and drops the focus, Delete/Backspace delete the selection.
pub fn handle_key(focused: Option<SurfaceId>, key: Key, shift: bool, widget_ids: &[SurfaceId]) -> (r: (
    Option<SurfaceId>,
    Option<KeyCommand>,
))
    ensures
        r == key_outcome(focused, key, shift, widget_ids@),
{
    match key {
        Key::Tab => {
            if widget_ids.len() == 0 {
                return (focused, None);
            }
            let n = widget_ids.len();
            let current = match focused {
                Some(id) => position_of(widget_ids, id),
                None => None,
            };
            proof {
                lemma_first_pos(widget_ids@, focused.unwrap_or(widget_ids@[0]));
            }
            let next = if shift {
                match current {
                    Some(i) => if i == 0 { n - 1 } else { i - 1 },
                    None => n - 1,
                }
            } else {
                match current {
                    Some(i) => (i + 1) % n,
                    None => 0,
                }
            };
            (Some(widget_ids[next]), None)
        },
        Key::Enter => (focused, Some(KeyCommand::Commit)),
        Key::Escape => (None, Some(KeyCommand::Cancel)),
        Key::Delete | Key::Backspace => (focused, Some(KeyCommand::DeleteSelected)),
        _ => (focused, None),
    }
}

/// Law: Shift+Tab undoes Tab — when the focused widget is among distinct widgets,
/// moving forward then backward returns the focus to it (and vice versa).
pub proof fn lemma_tab_round_trip(widget_ids: Seq<SurfaceId>, focused: SurfaceId, backwards_first: bool)
    requires
        no_duplicates(widget_ids),
        widget_ids.contains(focused),
    ensures
        ({
            let (once, _) = key_outcome(Some(focused), Key::Tab, backwards_first, widget_ids);
            let (twice, _) = key_outcome(once, Key::Tab, !backwards_first, widget_ids);
            twice == Some(focused)
        }),
{
    let n = widget_ids.len() as int;
    lemma_first_pos(widget_ids, focused);
    let i = first_pos(widget_ids, focused).unwrap();
    let j = focus_step(Some(i), n, backwards_first);
    assert(0 <= j < n) by {
        if !backwards_first {
            assert((i + 1) % n == if i + 1 == n { 0 } else { i + 1 }) by (nonlinear_arith)
                requires
                    0 <= i < n,
            ;
        }
    }
    lemma_first_pos(widget_ids, widget_ids[j]);
    let k = first_pos(widget_ids, widget_ids[j]).unwrap();
    assert(k == j);
    if backwards_first {
        assert((j + 1) % n == if j + 1 == n { 0 } else { j + 1 }) by (nonlinear_arith)
            requires
                0 <= j < n,
        ;
    } else {
        assert((i + 1) % n == if i + 1 == n { 0 } else { i + 1 }) by (nonlinear_arith)
            requires
                0 <= i < n,
        ;
    }
}

/// The connection a finished cable drag makes: from the port the drag started at
/// to the port under the pointer, if there is one and it is a different port.
pub open spec fn spec_connection(from: SurfaceId, hit: Option<SurfaceId>) -> Option<(SurfaceId, SurfaceId)> {
    match hit {
        Some(to) => if to != from { Some((from, to)) } else { None },
        None => None,
    }
}

/// Decides the connection made when a cable drag from `from` is released over `hit`.
/// A port is never connected to itself.
pub fn connection_on_release(from: SurfaceId, hit: Option<SurfaceId>) -> (c: Option<(SurfaceId, SurfaceId)>)
    ensures
        c == spec_connection(from, hit),
        c matches Some((a, b)) ==> a == from && a != b,
        forall|to: SurfaceId| hit == Some(to) && to != from ==> c == Some((from, to)),
        hit is None ==> c is None,
        hit == Some(from) ==> c is None,
{
    match hit {
        Some(to) => {
            if to.0 != from.0 {
                Some((from, to))
            } else {
                None
            }
        },
        None => None,
    }
}

/// Law: releasing a cable drag over a port connects the start port to it exactly
/// when it is a different port; releasing over nothing, or over the start port,
/// connects nothing.
pub proof fn lemma_release_connects_other_port(from: SurfaceId, to: SurfaceId)
    ensures
        to != from ==> spec_connection(from, Some(to)) == Some((from, to)),
        spec_connection(from, Some(from)) is None,
        spec_connection(from, None) is None,
{
}

} // verus!
