//! Verified core of a GEX-based intraday equity strategy: bar cadence
//! arithmetic, ticker catalogue, trading calendar, cache layout, chart markers,
//! broker bookkeeping and live reconciliation decisions.

pub mod backtest;
pub mod broker;
pub mod config;
pub mod data;
pub mod live;
pub mod ranking;
pub mod dates;
pub mod gregorian;
pub mod text;
pub mod types;
