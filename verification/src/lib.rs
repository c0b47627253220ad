//! Extraction of a bounded, contiguous slice of an ordered block store into a
//! freshly created, isolated store, with optional dry-run verification of a
//! processing stage against the slice.
//!
//! The store itself (an ordered, transactional key-value engine) and the four
//! stages' forward algorithms are external collaborators: this crate models a
//! table as its ordered records and proves what a dump copies, while the
//! surrounding program performs the actual persistence and stage execution.

pub mod dump;
pub mod errors;
pub mod harness;
pub mod session;
pub mod slice;
pub mod stage;
pub mod store;
pub mod table;
