//! Per-contract indexer-status fan-out: the subscription registry, the
//! priming snapshot of a new subscriber and the filter that decides which
//! subscribers receive a live progress update.

pub mod contract;
pub mod progress;
pub mod registry;
pub mod laws;
