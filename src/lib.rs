//! Multi-pattern search behind generation-checked handles.
//!
//! The matching engine itself lives outside this library. What is verified
//! here is the part that decides: which records become patterns, which
//! handles name a live engine, and how query results are laid out.

pub mod registry;
pub mod patterns;
pub mod results;
