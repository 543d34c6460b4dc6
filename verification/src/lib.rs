//! Decision logic of a pairs-trading engine: position and order-fill state
//! machines, spread bookkeeping, quote book, and request construction.

pub mod strategy;
pub mod pairs;
pub mod agent;
pub mod memory;
pub mod environment;
pub mod backtest;
pub mod market_data;
pub mod execution;
