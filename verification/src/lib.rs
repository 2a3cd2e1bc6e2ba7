//! Proof-of-work accounting and chain-weight comparison for a blockchain node
//! that supports hybrid mining: blocks may be produced under one of several
//! independent proof-of-work algorithms, and the chain's total work is tracked
//! per algorithm and compared as a partial order, never silently collapsed
//! into a single scalar.

pub mod algorithm;
pub mod component;
pub mod difficulty;
pub mod display;
pub mod encoding;
pub mod proof_of_work;
