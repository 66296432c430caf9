//! Economy engine for an incremental mining game: ores are mined for
//! currency, currency buys upgrades that unlock ores, double their value,
//! or add automation.

pub mod arith;
pub mod engine;
pub mod laws;
pub mod ore;
pub mod shop;
