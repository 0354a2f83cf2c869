//! Verified core of a small stock-prediction service.
//!
//! The library holds the parts of the service that are plain logic: the
//! time-unit arithmetic behind the data-fetch window, the range check on
//! that window, ticker-symbol validation, the triage of an incoming
//! prediction request, and the parsing and defaulting of the server's
//! configuration values. The surrounding program does the HTTP serving,
//! the market-data fetching and the floating-point regression, and hands
//! this library plain values.

pub mod api;
pub mod digits;
pub mod env;
pub mod symbol;
pub mod timeunit;
