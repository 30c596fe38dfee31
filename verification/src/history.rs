//! One row of the transcription history. The persistent store itself is a
//! collaborator of the daemon and lives outside the library; the daemon core
//! builds these entries and hands them out for saving.

use vstd::prelude::*;

verus! {

#[derive(Debug, Clone)]
pub struct HistoryEntry {
    pub id: i64,
    pub timestamp: String,
    pub duration_ms: u64,
    pub text: String,
    pub model: String,
    pub language: String,
}

} // verus!
