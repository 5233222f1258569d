//! A verified tour of language fundamentals: constants and process-wide
//! globals, scoping and shadowing, simple arithmetic, three styles of
//! bounded loops, boolean branching, literal matching, and in-place
//! mutation of a heap string through an exclusive borrow.
//!
//! Each demonstration is a pure function whose contract pins down exactly
//! the values the demonstration produces; printing them is left to the
//! program that drives the tour.

pub mod arithmetic;
pub mod branching;
pub mod globals;
pub mod matching;
pub mod ownership;
pub mod primitives;
pub mod scopes;
pub mod tables;
