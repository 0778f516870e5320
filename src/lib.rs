//! Building blocks of a two-leaf Taproot output: a time-locked refund script,
//! an unspendable script, the weighted tree that commits to both, and the
//! pay-to-taproot address of that tree.

pub mod error;
pub mod script;
pub mod tree;
