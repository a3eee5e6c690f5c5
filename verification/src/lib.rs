//! A watcher of fifteen-minute "up or down" prediction markets: which market
//! is current, how its two sides' prices move against a ladder of thresholds,
//! and how it is settled. The functions here carry contracts and proofs; what
//! lies outside them (the system clock, JSON decoding, Unicode lower-casing) is
//! reached through a few trusted wrappers whose contracts say what is assumed.
//! The program under `app/` performs the network and database work, and reads
//! price texts as `f64`, handing the library their bit patterns.

pub mod text;
pub mod time;
pub mod price;
pub mod market;
pub mod config;
pub mod gamma;
pub mod clob;
pub mod resolve;
pub mod ws;
pub mod manager;
