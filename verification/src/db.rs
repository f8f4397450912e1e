//! What the relational store holds, and how it fails.

pub mod error;
pub mod ledger;
pub mod models;
pub mod ranking;
pub mod store;
