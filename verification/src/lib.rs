//! Verified report builder for alert-silence summaries.
//!
//! The library turns a list of silence records into a sequence of bounded,
//! formatted message batches. Every formatting rule — the per-batch block
//! cap, the summary counts, timestamp formatting, matcher rendering and
//! comment truncation — is stated in contracts and proved.

pub mod laws;
pub mod report;
pub mod silence;
pub mod text;
pub mod timestamp;
