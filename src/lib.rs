//! Assembly, commitment and authorization of two-layer (inner and wrapper)
//! transactions.

pub mod encoding;
pub mod hash;
pub mod tx;
pub mod transaction;
pub mod laws;
