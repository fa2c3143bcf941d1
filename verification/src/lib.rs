//! A single-level directory-tree analyzer: it counts the direct entries of
//! each subdirectory of a root, derives a time-decayed stability score from
//! the latest modification time among those entries, and renders a formatted
//! report. All filesystem access happens outside this crate; the library
//! works on plain values (entry counts and modification times in whole
//! seconds since the epoch).

pub mod analyze;
pub mod laws;
pub mod render;
pub mod scan;
pub mod stability;
