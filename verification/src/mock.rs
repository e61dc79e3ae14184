//! Deterministic test doubles for the transactional backend: a transaction
//! manager whose lifecycle calls always succeed, and three connections that
//! each fail every statement with one fixed error.

pub mod connections;
pub mod transactions;
