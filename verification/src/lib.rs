//! A bounded-time bridge that hands text to an external command-line
//! transformation backend and classifies every way the invocation can end.
//!
//! The crate contains the decision logic only: trimming and blank detection,
//! prompt assembly, model resolution, the poll-loop policy with its timeout,
//! and the classification of exit paths into a closed outcome taxonomy.
//! The process spawning, polling and sleeping themselves are left to the
//! embedding application, which drives them with the functions defined here.

pub mod digits;
pub mod models;
pub mod outcome;
pub mod runner;
pub mod text;
