//! Message-construction core for a token-factory contract.
//!
//! The library builds wire-exact binary payloads for the "create denomination"
//! and "mint" operations of an external token-management module, answers
//! metadata queries by decoding the module's binary responses, and gates the
//! privileged mint operation on a single stored owner.

pub mod codec;
pub mod contract;
pub mod decimal;
pub mod error;
pub mod msg;
pub mod native;
pub mod wire;
