//! Core logic of a desktop launcher that supervises a single local server
//! subprocess ("sidecar"): per-OS data-path resolution, construction of the
//! child's environment and spawn plan, and translation of the child's
//! output/termination stream into log records.
//!
//! Everything here is pure computation on plain values; the host shell
//! performs the filesystem, process and logging I/O around it.

pub mod fsmodel;
pub mod paths;
pub mod pump;
pub mod spawn;
pub mod startup;
pub mod text;
