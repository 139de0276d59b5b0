//! A constant-product market maker for pairs of assets: pool bookkeeping,
//! share accounting and swap pricing, with the transfers it asks for
//! returned to the caller as plain values.
#![allow(non_snake_case)]

pub mod types;
pub mod encoding;
pub mod arith;
pub mod store;
pub mod queries;
pub mod dispatch;
pub mod laws;
pub mod guards;
