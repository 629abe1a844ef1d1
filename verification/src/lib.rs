//! Sample verification for competitive-programming solutions.
//!
//! The library holds the rules of a small contest helper: where a problem's
//! page lives and how the sample output is taken out of it, how the captured
//! output of a solution becomes text, and how the two texts are compared
//! character by character with newlines ignored.

pub mod comparator;
pub mod error;
pub mod fetcher;
pub mod pipeline;
pub mod runner;
pub mod scaffold;
pub mod text;
