//! Client library for a derivatives exchange: a signed REST request layer,
//! a WebSocket session engine and a checksummed order book replica.

pub mod catalog;
pub mod decimal;
pub mod model;
pub mod options;
pub mod orderbook;
pub mod rest;
pub mod ws;
