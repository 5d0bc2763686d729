//! Parameter interaction: the store of live parameter values and the events
//! that carry drags from the editor to the host.
//!
//! Parameter values are 32-bit floats carried as their IEEE-754 bit patterns;
//! the store decides on the bits alone.

use vstd::prelude::*;
use crate::plugin::keyed::{lookup, upsert, get_slot};

verus! {

/// IEEE-754 single precision: a value is finite unless all eight exponent bits are set
/// (which encodes an infinity or a NaN).
pub open spec fn spec_is_finite_bits(bits: u32) -> bool {
    (bits >> 23u32) & 0xffu32 != 0xffu32
}

/// `f32::is_finite` decided on the bit pattern.
pub fn is_finite_bits(bits: u32) -> (b: bool)
    ensures
        b == spec_is_finite_bits(bits),
{
    (bits >> 23u32) & 0xffu32 != 0xffu32
}

/// Live parameter values shared between the editor and the host.
pub struct InteractionStore {
    param_values: Vec<(String, u32)>,
}

impl Default for InteractionStore {
    /// An empty store.
    fn default() -> (store: Self)
        ensures
            forall|id: Seq<char>| #[trigger] store.stored(id) is None,
    {
        InteractionStore::new()
    }
}

impl InteractionStore {
    /// The bit pattern stored for `id`, if any.
    pub closed spec fn stored(&self, id: Seq<char>) -> Option<u32> {
        lookup(self.param_values@, id)
    }

    pub fn new() -> (store: Self)
        ensures
            forall|id: Seq<char>| #[trigger] store.stored(id) is None,
    {
        InteractionStore { param_values: Vec::new() }
    }

    /// Stores `value_bits` for `id`; a non-finite value (infinity or NaN) is ignored.
    pub fn set_value(&mut self, id: &str, value_bits: u32)
        ensures
            forall|x: Seq<char>| #[trigger] final(self).stored(x) == if spec_is_finite_bits(value_bits)
                && x == id@ {
                Some(value_bits)
            } else {
                old(self).stored(x)
            },
    {
        if !is_finite_bits(value_bits) {
            return;
        }
        upsert(&mut self.param_values, String::from_str(id), value_bits);
    }

    /// The bit pattern stored for `id`, or `0` (the bits of `0.0`) when none is.
    pub fn get_value(&self, id: &str) -> (bits: u32)
        ensures
            bits == match self.stored(id@) {
                Some(b) => b,
                None => 0u32,
            },
    {
        match get_slot(&self.param_values, &String::from_str(id)) {
            Some(b) => b,
            None => 0,
        }
    }
}

/// A drag gesture on a parameter, numbered so that stale drags can be dropped.
#[derive(Debug, Clone)]
pub enum InteractionEvent {
    BeginDrag { param_id: String, seq_id: u64 },
    Drag { param_id: String, seq_id: u64 },
    EndDrag { param_id: String, seq_id: u64 },
}

/// What the host side does with one interaction event.
#[derive(Debug, Clone, PartialEq, Eq, Structural)]
pub enum ParamAction {
    /// Begin a parameter gesture.
    Begin,
    /// Read the stored value and set the parameter to it.
    Apply,
    /// End a parameter gesture.
    End,
    /// Drop the event: a drag with a sequence number not newer than the last applied one.
    Stale,
}

/// The last sequence number applied per parameter: the order-keeping part of the
/// editor's parameter poll loop.
pub struct InteractionSequencer {
    last_applied: Vec<(String, u64)>,
}

/// The parameter id and sequence number an event carries.
pub open spec fn event_param(e: InteractionEvent) -> (Seq<char>, u64) {
    match e {
        InteractionEvent::BeginDrag { param_id, seq_id } => (param_id@, seq_id),
        InteractionEvent::Drag { param_id, seq_id } => (param_id@, seq_id),
        InteractionEvent::EndDrag { param_id, seq_id } => (param_id@, seq_id),
    }
}

impl InteractionSequencer {
    /// The last sequence number applied for parameter `id`, if any.
    pub closed spec fn last_seq(&self, id: Seq<char>) -> Option<u64> {
        lookup(self.last_applied@, id)
    }

    /// The number a drag must exceed to be applied: the last one, or 0.
    pub open spec fn threshold(&self, id: Seq<char>) -> u64 {
        match self.last_seq(id) {
            Some(s) => s,
            None => 0,
        }
    }

    pub fn new() -> (s: Self)
        ensures
            forall|id: Seq<char>| #[trigger] s.last_seq(id) is None,
    {
        InteractionSequencer { last_applied: Vec::new() }
    }

    /// Decides one event. Begin and end are always taken and recorded; a drag is
    /// applied and recorded only when its number exceeds the last applied one.
    pub fn handle(&mut self, event: InteractionEvent) -> (action: ParamAction)
        ensures
            ({
                let (id, seq) = event_param(event);
                &&& action == match event {
                    InteractionEvent::BeginDrag { .. } => ParamAction::Begin,
                    InteractionEvent::EndDrag { .. } => ParamAction::End,
                    InteractionEvent::Drag { .. } => if seq > old(self).threshold(id) {
                        ParamAction::Apply
                    } else {
                        ParamAction::Stale
                    },
                }
                &&& forall|x: Seq<char>| #[trigger] final(self).last_seq(x) == if x == id
                    && action != ParamAction::Stale {
                    Some(seq)
                } else {
                    old(self).last_seq(x)
                }
            }),
    {
        match event {
            InteractionEvent::BeginDrag { param_id, seq_id } => {
                upsert(&mut self.last_applied, param_id, seq_id);
                ParamAction::Begin
            },
            InteractionEvent::Drag { param_id, seq_id } => {
                let last = match get_slot(&self.last_applied, &param_id) {
                    Some(s) => s,
                    None => 0,
                };
                if seq_id > last {
                    upsert(&mut self.last_applied, param_id, seq_id);
                    ParamAction::Apply
                } else {
                    ParamAction::Stale
                }
            },
            InteractionEvent::EndDrag { param_id, seq_id } => {
                upsert(&mut self.last_applied, param_id, seq_id);
                ParamAction::End
            },
        }
    }
}

/// The drag numbers applied, in order, when drags numbered `seqs` arrive one by one for
/// one parameter whose threshold is `threshold` (no begin or end in between): each
/// drag is applied when it exceeds the last applied number, and then becomes the threshold.
pub open spec fn applied_drags(threshold: u64, seqs: Seq<u64>) -> Seq<u64>
    decreases seqs.len(),
{
    if seqs.len() == 0 {
        seq![]
    } else if seqs[0] > threshold {
        seq![seqs[0]] + applied_drags(seqs[0], seqs.drop_first())
    } else {
        applied_drags(threshold, seqs.drop_first())
    }
}

/// Law: between a begin and an end, the drags that reach the parameter carry strictly
/// increasing numbers, all above the threshold they started from — a late or
/// duplicated drag never overwrites a newer one.
pub proof fn lemma_applied_drags_increase(threshold: u64, seqs: Seq<u64>)
    ensures
        forall|i: int| 0 <= i < applied_drags(threshold, seqs).len() ==> applied_drags(threshold, seqs)[i] > threshold,
        forall|i: int, j: int|
            0 <= i < j < applied_drags(threshold, seqs).len() ==> applied_drags(threshold, seqs)[i]
                < applied_drags(threshold, seqs)[j],
    decreases seqs.len(),
{
    if seqs.len() > 0 {
        if seqs[0] > threshold {
            lemma_applied_drags_increase(seqs[0], seqs.drop_first());
            let rest = applied_drags(seqs[0], seqs.drop_first());
            let all = applied_drags(threshold, seqs);
            assert(all == seq![seqs[0]] + rest);
            assert(all.len() == rest.len() + 1);
            assert(all[0] == seqs[0]);
            assert forall|i: int, j: int| 0 <= i < j < all.len() implies all[i] < all[j] by {
                if i == 0 {
                    assert(all[j] == rest[j - 1]);
                } else {
                    assert(all[i] == rest[i - 1] && all[j] == rest[j - 1]);
                }
            }
            assert forall|i: int| 0 <= i < all.len() implies all[i] > threshold by {
                if i > 0 {
                    assert(all[i] == rest[i - 1]);
                }
            }
        } else {
            lemma_applied_drags_increase(threshold, seqs.drop_first());
            assert(applied_drags(threshold, seqs) == applied_drags(threshold, seqs.drop_first()));
        }
    }
}

} // verus!
