//! Search engine for autograms: sentences that state the exact count of
//! every letter they themselves contain.
//!
//! Given a fixed opening phrase (the preamble), the library classifies the
//! 26 letters, derives sound lower and upper bounds for a partial count
//! assignment, and runs a backtracking search whose leaves are fixed points:
//! assignments that, once rendered as a sentence and recounted, reproduce
//! themselves exactly.

pub mod bounds;
pub mod classify;
pub mod counts;
pub mod engine;
pub mod letters;
pub mod output;
pub mod search;
pub mod table;
pub mod words;
