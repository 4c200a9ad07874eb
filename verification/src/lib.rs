//! A batch resource loader: fetch a list of named resources, isolate
//! per-resource failures, and aggregate the successes into a lookup map.
pub mod aggregator;
pub mod fetcher;
pub mod orchestrator;
pub mod outcome;
pub mod result_map;
