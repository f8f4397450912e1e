//! The request-handling core of the service.

pub mod admin;
pub mod api;
pub mod auth;
pub mod cors;
pub mod data_access;
pub mod error;
pub mod highscore_tables;
pub mod requests;
