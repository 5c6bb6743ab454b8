//! Triangular arbitrage detection over pairwise exchange rates.
//!
//! Every number the library handles is a binary64 value carried by its bit
//! pattern. The library classifies and orders such values, validates rate
//! matrices, walks the directed three-asset cycles in a fixed order, and
//! drives matrix construction and polling as explicit state machines. It
//! never multiplies, adds or subtracts amounts: the host computes what each
//! cycle returns and hands the figures in.

pub mod amount;
pub mod arbitrage;
pub mod builder;
pub mod config;
pub mod cycle;
pub mod matrix;
pub mod oracle;
pub mod orchestrator;
pub mod quote;
pub mod tokens;

pub use amount::Amount;
pub use arbitrage::{
    calc_triangle_arbitrage_opportunity, cycle_rates, select_opportunity, ArbitrageOpportunity,
    CycleRates, CycleValuation,
};
pub use builder::RateMatrixBuilder;
pub use config::{AssetTriple, Config, ConfigError};
pub use cycle::{directed_cycles, Cycle};
pub use matrix::{validate, ValidationError};
pub use oracle::{OracleError, OracleFault};
pub use quote::{price_from_response, price_of_reading, price_url};
pub use tokens::TokenTable;
pub use orchestrator::{
    sequence_label, Command, Event, Phase, PollingOrchestrator, Report, SkipCause, Transition,
};
