//! Content-addressed placement of files into a two-level fan-out tree.
//!
//! A file's destination is computed from the hex digest of its contents:
//! the first two hex characters name the first directory level, the next
//! two the second, and a naming policy decides the final file name.

pub mod hash;
pub mod naming;
pub mod placement;
