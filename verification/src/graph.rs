//! LimeGraph components without geometry: forensic records and graph metadata.

use vstd::prelude::*;

verus! {

/// Who changed a node last, when, and the chain of hashes behind it.
#[derive(Debug, Clone)]
pub struct ForensicComponent {
    pub last_modified_by: String,
    pub timestamp: u64,
    pub hash_chain: Vec<u8>,
}

#[derive(Debug, Clone)]
pub struct GraphMetadata {
    pub project_name: String,
    pub version: u32,
    pub total_provenance_hash: [u8; 32],
}

impl Default for GraphMetadata {
    /// An unnamed project at version 0 with an all-zero provenance hash.
    fn default() -> (m: Self)
        ensures
            m.project_name@ == Seq::<char>::empty(),
            m.version == 0,
            m.total_provenance_hash@ == Seq::new(32, |i: int| 0u8),
    {
        let m = GraphMetadata { project_name: String::new(), version: 0, total_provenance_hash: [0u8; 32] };
        proof {
            assert(m.total_provenance_hash@ =~= Seq::new(32, |i: int| 0u8));
        }
        m
    }
}

} // verus!
