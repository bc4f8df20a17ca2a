pub mod calendar;
pub mod chart;
pub mod state;
pub mod missed_entries;
pub mod setup;
pub mod overfit_report;
pub mod splits;
pub mod et_format;
pub mod iv_scan;
pub mod trade_analysis;
pub mod costs;
pub mod sweep;
