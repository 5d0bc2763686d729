//! Trust Ledger — the accountability record.
//!
//! A badge presents evidence; the ledger is the history of that evidence.
//! Entries are only ever appended.

use vstd::prelude::*;
use std::time::SystemTime;
use crate::surface::ui_ir::{ProvenanceLevel, provenance_rank};

verus! {

/// `std::time::SystemTime`, carried opaquely as an entry's timestamp.
#[verifier::external_type_specification]
#[verifier::external_body]
pub struct ExSystemTime(SystemTime);

/// `SystemTime` is `Copy`; its `Clone` returns the same instant.
pub assume_specification[ <SystemTime as Clone>::clone ](t: &SystemTime) -> (r: SystemTime)
    ensures
        r == *t,
;

/// Calls `std::time::SystemTime::now`. The wall clock is read; nothing is
/// promised of the value.
#[verifier::external_body]
fn system_time_now() -> (t: SystemTime) {
    SystemTime::now()
}

/// One recorded change of provenance level.
#[derive(Debug, Clone)]
pub struct LedgerEntry {
    pub timestamp: SystemTime,
    /// "System", "User", "Compiler", or "Agent".
    pub author: String,
    pub why: String,
    pub source_hash: [u8; 32],
    pub previous_level: ProvenanceLevel,
    pub new_level: ProvenanceLevel,
}

/// A change is a downgrade when the new level ranks strictly below the previous one.
pub open spec fn spec_is_downgrade(prev: ProvenanceLevel, next: ProvenanceLevel) -> bool {
    provenance_rank(next) < provenance_rank(prev)
}

/// Whether an entry records a downgrade.
pub open spec fn entry_is_downgrade(e: LedgerEntry) -> bool {
    spec_is_downgrade(e.previous_level, e.new_level)
}

/// The downgrades among `entries`, in recording order.
pub open spec fn downgrades(entries: Seq<LedgerEntry>) -> Seq<LedgerEntry> {
    entries.filter(|e: LedgerEntry| entry_is_downgrade(e))
}

#[derive(Debug, Clone)]
pub struct TrustLedger {
    pub entries: Vec<LedgerEntry>,
}

impl Default for TrustLedger {
    /// An empty ledger.
    fn default() -> (ledger: Self)
        ensures
            ledger.entries@ == Seq::<LedgerEntry>::empty(),
    {
        TrustLedger::new()
    }
}

impl TrustLedger {
    pub fn new() -> (ledger: Self)
        ensures
            ledger.entries@ == Seq::<LedgerEntry>::empty(),
    {
        TrustLedger { entries: Vec::new() }
    }

    /// Appends one entry stamped with the current time: `record_at` with the
    /// clock's reading.
    pub fn record(
        &mut self,
        author: &str,
        why: &str,
        hash: [u8; 32],
        prev: ProvenanceLevel,
        next: ProvenanceLevel,
    )
        ensures
            final(self).entries@.len() == old(self).entries@.len() + 1,
            final(self).entries@.drop_last() == old(self).entries@,
            final(self).entries@.last().author@ == author@,
            final(self).entries@.last().why@ == why@,
            final(self).entries@.last().source_hash == hash,
            final(self).entries@.last().previous_level == prev,
            final(self).entries@.last().new_level == next,
    {
        let now = system_time_now();
        self.record_at(now, author, why, hash, prev, next);
    }

    /// Appends one entry stamped with `timestamp`; earlier entries stay as they are.
    pub fn record_at(
        &mut self,
        timestamp: SystemTime,
        author: &str,
        why: &str,
        hash: [u8; 32],
        prev: ProvenanceLevel,
        next: ProvenanceLevel,
    )
        ensures
            final(self).entries@.len() == old(self).entries@.len() + 1,
            final(self).entries@.drop_last() == old(self).entries@,
            final(self).entries@.last().timestamp == timestamp,
            final(self).entries@.last().author@ == author@,
            final(self).entries@.last().why@ == why@,
            final(self).entries@.last().source_hash == hash,
            final(self).entries@.last().previous_level == prev,
            final(self).entries@.last().new_level == next,
    {
        let entry = LedgerEntry {
            timestamp,
            author: String::from_str(author),
            why: String::from_str(why),
            source_hash: hash,
            previous_level: prev,
            new_level: next,
        };
        self.entries.push(entry);
        proof {
            assert(final(self).entries@.drop_last() =~= old(self).entries@);
        }
    }

    /// The entries that record a downgrade of trust, in recording order.
    pub fn summarize_downgrades(&self) -> (res: Vec<&LedgerEntry>)
        ensures
            res@.map_values(|r: &LedgerEntry| *r) == downgrades(self.entries@),
    {
        let mut res: Vec<&LedgerEntry> = Vec::new();
        let mut i: usize = 0;
        while i < self.entries.len()
            invariant
                i <= self.entries@.len(),
                res@.map_values(|r: &LedgerEntry| *r) == downgrades(self.entries@.take(i as int)),
            decreases self.entries@.len() - i,
        {
            let e = &self.entries[i];
            let keep = self.is_downgrade(e.previous_level, e.new_level);
            let ghost before = res@;
            if keep {
                res.push(e);
            }
            proof {
                let s = self.entries@.take(i + 1);
                assert(s.drop_last() =~= self.entries@.take(i as int));
                assert(s.last() == *e);
                reveal_with_fuel(Seq::<LedgerEntry>::filter, 1);
                assert(res@.map_values(|r: &LedgerEntry| *r) =~= downgrades(s));
            }
            i = i + 1;
        }
        proof {
            assert(self.entries@.take(self.entries@.len() as int) =~= self.entries@);
        }
        res
    }

    fn is_downgrade(&self, prev: ProvenanceLevel, next: ProvenanceLevel) -> (b: bool)
        ensures
            b == spec_is_downgrade(prev, next),
    {
        rank(next) < rank(prev)
    }
}

fn rank(level: ProvenanceLevel) -> (r: u8)
    ensures
        r as int == provenance_rank(level),
{
    match level {
        ProvenanceLevel::Verified => 3,
        ProvenanceLevel::Inferred => 2,
        ProvenanceLevel::Stale => 1,
        ProvenanceLevel::External => 0,
    }
}

/// Law: recording a change extends the downgrade summary by exactly that change
/// when it is a downgrade, and leaves it unchanged otherwise.
pub proof fn lemma_record_extends_downgrades(before: Seq<LedgerEntry>, e: LedgerEntry)
    ensures
        downgrades(before.push(e)) == if entry_is_downgrade(e) {
            downgrades(before).push(e)
        } else {
            downgrades(before)
        },
{
    reveal_with_fuel(Seq::<LedgerEntry>::filter, 1);
    assert(before.push(e).drop_last() =~= before);
}

/// Law: the ledger is append-only, so earlier downgrades stay in the summary,
/// in order, whatever is recorded later.
pub proof fn lemma_downgrades_prefix(before: Seq<LedgerEntry>, later: Seq<LedgerEntry>)
    ensures
        downgrades(before).is_prefix_of(downgrades(before + later)),
    decreases later.len(),
{
    if later.len() == 0 {
        assert(before + later =~= before);
    } else {
        let init = later.drop_last();
        lemma_downgrades_prefix(before, init);
        assert((before + later) =~= (before + init).push(later.last()));
        lemma_record_extends_downgrades(before + init, later.last());
    }
}

/// Law: trust is ordered Verified > Inferred > Stale > External, and a change is a
/// downgrade exactly when it goes to a level strictly lower in that order.
pub proof fn lemma_downgrade_order(prev: ProvenanceLevel, next: ProvenanceLevel)
    ensures
        spec_is_downgrade(prev, next) <==> {
            ||| prev == ProvenanceLevel::Verified && next != ProvenanceLevel::Verified
            ||| prev == ProvenanceLevel::Inferred && (next == ProvenanceLevel::Stale
                || next == ProvenanceLevel::External)
            ||| prev == ProvenanceLevel::Stale && next == ProvenanceLevel::External
        },
{
}

/// Law: recording a change to a strictly lower level of trust (for instance
/// Stale -> External) puts that entry at the end of the downgrade summary; a change
/// to the same or a higher level leaves the summary as it was.
pub proof fn lemma_lower_level_is_summarized(before: Seq<LedgerEntry>, e: LedgerEntry)
    ensures
        ({
            let lower = {
                ||| e.previous_level == ProvenanceLevel::Verified && e.new_level != ProvenanceLevel::Verified
                ||| e.previous_level == ProvenanceLevel::Inferred && (e.new_level == ProvenanceLevel::Stale
                    || e.new_level == ProvenanceLevel::External)
                ||| e.previous_level == ProvenanceLevel::Stale && e.new_level == ProvenanceLevel::External
            };
            &&& lower ==> downgrades(before.push(e)) == downgrades(before).push(e)
            &&& !lower ==> downgrades(before.push(e)) == downgrades(before)
        }),
{
    lemma_downgrade_order(e.previous_level, e.new_level);
    lemma_record_extends_downgrades(before, e);
}

} // verus!
