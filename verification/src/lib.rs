//! Proof-of-Capacity consensus.
//!
//! A block is made by the farmer that first answers the challenge of a slot with a good solution.
//! The engine decides who may make a block (`challenge`, `claim`, `keys`), what a block has to
//! hold (`digests`, `consensus_log`, `solution`, `scan`), whether a block is accepted
//! (`verification`, `check_inherents`, `equivocation`), and how it takes its place in the chain
//! (`epoch`, `import`). What it wants to know of the node it asks for: a question is a value, and
//! the answer leads to the next one, until there is a decision.
//!
//! What holds of whole runs, whatever the node answers, stands in `scan_laws`, `verification_laws`,
//! `import_step_laws` and `import_laws`; what holds of the texts of errors in `message_laws`.

pub mod challenge;
pub mod check_inherents;
pub mod claim;
pub mod codec;
pub mod config;
pub mod consensus_log;
pub mod digest;
pub mod digests;
pub mod epoch;
pub mod equivocation;
pub mod error;
pub mod import;
pub mod import_laws;
pub mod import_params;
pub mod import_step_laws;
pub mod inherents;
pub mod keys;
pub mod message;
pub mod message_laws;
pub mod offence;
pub mod primitives;
pub mod scan;
pub mod scan_laws;
pub mod solution;
pub mod verification;
pub mod verification_laws;
pub mod vrf;
