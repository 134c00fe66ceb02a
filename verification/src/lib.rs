//! Decision logic of a market-data collector and trading dashboard:
//! parsing of configuration values, the Finnhub trade feed protocol,
//! the Alpaca polling schedule and refresh cycle, the start-up plan of the
//! data collector, and the page logic of the web front end.

pub mod text;
pub mod finnhub;
pub mod feed;
pub mod alpaca;
pub mod collector;
pub mod config;
pub mod web;
pub mod order;
