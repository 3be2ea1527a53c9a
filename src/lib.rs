//! Timing parameters of a Tendermint-style consensus engine: per-phase
//! timeouts with defaults, the base round duration, the test-mode flag and
//! the signing capability, resolved once from a raw configuration record.

pub mod laws;
pub mod params;
pub mod time;

pub use params::{Config, ParamsError, TendermintParams, TendermintTimer};
pub use time::to_duration;
