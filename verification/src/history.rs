//! Saved Continue outputs, as the island's read-only history shows them.
use vstd::prelude::*;

verus! {

/// One saved Continue output in a history page.
#[derive(Debug, Clone, PartialEq, Eq, Default)]
pub struct ContinueHistorySummaryV1 {
    pub decision_id: String,
    pub created_at_ms: i64,
    pub origin: String,
    pub title: String,
}

/// Where the next history page starts.
#[derive(Debug, Clone, PartialEq, Eq, Default)]
pub struct ContinueHistoryCursorV1 {
    pub created_at_ms: i64,
    pub decision_id: String,
}

/// One labelled row of a saved answer.
#[derive(Debug, Clone, PartialEq, Eq, Default)]
pub struct ContinueHistoryAnswerRowV1 {
    pub label: String,
    pub value: String,
}

/// A saved Continue output with its exact wording.
#[derive(Debug, Clone, PartialEq, Eq, Default)]
pub struct ContinueHistoryOutputV1 {
    pub schema: String,
    pub decision_id: String,
    pub created_at_ms: i64,
    pub origin: String,
    pub title: String,
    pub rows: Vec<ContinueHistoryAnswerRowV1>,
}

} // verus!
