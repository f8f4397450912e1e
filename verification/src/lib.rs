//! Game-client request authentication and highscore retention for the
//! TopBanana highscore service.
//!
//! Untrusted game clients submit signed, replay-protected envelopes. This
//! library decodes and verifies them, and keeps each highscore table within
//! its configured number of retained rows. Every function carries a contract
//! that Verus proves; calls into other crates stand behind small trusted
//! functions whose contracts are documented where they are declared.
//!
//! # The parts
//!
//! - [`server::requests::hasher`] holds the closed set of signing
//!   algorithms and their security levels.
//! - [`server::requests`] reads the two-part envelope, checks a signature
//!   against a secret, and opens the payload into a request.
//! - [`server::requests::protocol`] is the verification of a request as a
//!   conversation with the store: it decides what to ask next and how the
//!   verification ends. [`server::requests::verify`] carries the
//!   conversation through against the store in memory, and states what
//!   holds of every verification; [`server::requests::concurrent`] does so
//!   for two verifications at once.
//! - [`db::ranking`] is the canonical ranking of scores, and
//!   [`db::ledger`] the record of accepted requests. [`db::store`] holds
//!   the service's tables in memory and answers the questions that the
//!   service asks of its relational store.
//! - [`server::highscore_tables`] posts a score under a table's retention
//!   rule and lists a table's scores; [`server::error`] says how each
//!   failure is answered.
//! - [`util`] holds the plain values that stand for what other crates
//!   compute: UUIDs, points in time, scores, JSON fields.
//!
//! # Doing without a store
//!
//! Nothing here reads a database, a clock or a socket, but for the clock
//! behind [`util::time::Timestamp::now`] and the source of randomness behind
//! [`util::generate_key`]. A program that keeps its state elsewhere runs the
//! conversations of [`server::requests::protocol`] and
//! [`server::highscore_tables::table_request`] against its own store, and
//! ranks and trims rows with [`server::api::rank_scores`] and
//! [`server::highscore_tables::extra_highscore_rows`].

pub mod args;
pub mod db;
pub mod server;
pub mod util;
