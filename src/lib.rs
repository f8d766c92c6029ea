//! A 1:1 token wrapping protocol: address derivation for a wrapped pair,
//! the instruction codec, and the create / wrap / unwrap handlers, each
//! stated against a model of the token ledger accounts it touches.
pub mod address;
pub mod ledger;
pub mod state;
pub mod processor;
pub mod instruction;
pub mod laws;

pub use address::Address;
pub use instruction::{create_mint, unwrap, wrap, TokenWrapInstruction};
