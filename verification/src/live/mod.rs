//! Live trading: session calendar, polling policy, bookkeeping and the
//! reconciliation of local state with the broker.

pub mod reconcile;
pub mod nyse_session;
pub mod live_poll_policy;
pub mod auth;
pub mod trade_log;
pub mod verbosity;
pub mod live_entry_candidate;
pub mod state;
pub mod recovery;
pub mod poll_cycle;
pub mod live_cycle;
pub mod equity;
