//! Usage-cost accounting for the X intelligence command line tool: a rate
//! table that prices API operations, a ledger of priced entries with a
//! spending limit, and cost reports over time windows.
//!
//! Money is counted in micro-dollars (millionths of a US dollar) so that all
//! arithmetic is exact. Time is counted in seconds since the Unix epoch, UTC;
//! the caller supplies "now". Reading and writing the ledger file is left to
//! the caller: the library works on the ledger in memory.

pub mod text;
pub mod rates;
pub mod window;
pub mod ledger;
pub mod summary;
pub mod report;
pub mod amount;
pub mod usage;
pub mod cli;
