use limestudio::surface::model::provenance::TrustLedger;
use limestudio::surface::model::stable_id::SurfaceId;
use limestudio::surface::ui_ir::ProvenanceLevel;

#[test]
fn from_seed_is_deterministic() {
    assert_eq!(SurfaceId::from_seed("gain"), SurfaceId::from_seed("gain"));
    assert_ne!(SurfaceId::from_seed("gain"), SurfaceId::from_seed("cutoff"));
}

#[test]
fn from_seed_takes_first_sixteen_digest_bytes_big_endian() {
    let digest = blake3::hash("knob".as_bytes());
    let mut first = [0u8; 16];
    first.copy_from_slice(&digest.as_bytes()[0..16]);
    assert_eq!(SurfaceId::from_seed("knob").0, u128::from_be_bytes(first));
}

#[test]
fn generate_gives_fresh_ids() {
    let a = SurfaceId::generate();
    let b = SurfaceId::generate();
    assert_ne!(a, b);
}

#[test]
fn ledger_records_in_order() {
    let mut ledger = TrustLedger::new();
    assert!(ledger.entries.is_empty());
    ledger.record("User", "edit", [1u8; 32], ProvenanceLevel::Verified, ProvenanceLevel::Inferred);
    ledger.record("System", "recompile", [2u8; 32], ProvenanceLevel::Stale, ProvenanceLevel::Verified);
    assert_eq!(ledger.entries.len(), 2);
    assert_eq!(ledger.entries[0].author, "User");
    assert_eq!(ledger.entries[0].why, "edit");
    assert_eq!(ledger.entries[0].source_hash, [1u8; 32]);
    assert_eq!(ledger.entries[1].author, "System");
    assert_eq!(ledger.entries[1].previous_level, ProvenanceLevel::Stale);
    assert_eq!(ledger.entries[1].new_level, ProvenanceLevel::Verified);
}

#[test]
fn summarize_downgrades_keeps_only_downgrades() {
    let mut ledger = TrustLedger::new();
    ledger.record("User", "a", [0u8; 32], ProvenanceLevel::Verified, ProvenanceLevel::External);
    ledger.record("User", "b", [0u8; 32], ProvenanceLevel::External, ProvenanceLevel::Verified);
    ledger.record("Agent", "c", [0u8; 32], ProvenanceLevel::Inferred, ProvenanceLevel::Stale);
    ledger.record("Agent", "d", [0u8; 32], ProvenanceLevel::Stale, ProvenanceLevel::Stale);
    let downs = ledger.summarize_downgrades();
    assert_eq!(downs.len(), 2);
    assert_eq!(downs[0].why, "a");
    assert_eq!(downs[1].why, "c");
}

#[test]
fn recording_a_downgrade_extends_the_summary() {
    let mut ledger = TrustLedger::new();
    ledger.record("User", "up", [0u8; 32], ProvenanceLevel::Stale, ProvenanceLevel::Inferred);
    assert_eq!(ledger.summarize_downgrades().len(), 0);
    ledger.record("User", "down", [0u8; 32], ProvenanceLevel::Inferred, ProvenanceLevel::Stale);
    let downs = ledger.summarize_downgrades();
    assert_eq!(downs.len(), 1);
    assert_eq!(downs[0].why, "down");
}

#[test]
fn record_at_stores_the_given_timestamp() {
    let mut ledger = TrustLedger::new();
    let t = std::time::UNIX_EPOCH + std::time::Duration::from_secs(1_700_000_000);
    ledger.record_at(t, "Compiler", "recompiled", [7u8; 32], ProvenanceLevel::Verified, ProvenanceLevel::Stale);
    assert_eq!(ledger.entries.len(), 1);
    assert_eq!(ledger.entries[0].timestamp, t);
    assert_eq!(ledger.entries[0].author, "Compiler");
    assert_eq!(ledger.entries[0].why, "recompiled");
    assert_eq!(ledger.entries[0].source_hash, [7u8; 32]);
    assert_eq!(ledger.summarize_downgrades().len(), 1);
}
