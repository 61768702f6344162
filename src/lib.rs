//! Corpus management for a coverage-guided fuzzer: testcases, storage
//! backends and a round-robin scheduling overlay.

pub mod error;
pub mod rand;
pub mod inputs;
pub mod testcase;
pub mod store;
pub mod corpus;
pub mod in_memory;
pub mod on_disk;
pub mod queue;
