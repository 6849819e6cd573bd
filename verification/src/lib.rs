//! A simulated real-time market-data feed: a registry of tradable
//! instruments whose prices tick, a publish/subscribe mechanism that only
//! pushes updates to instruments with active subscribers, a bounded worker
//! pool, and the line protocol of a small exchange server.

pub mod alphavantageapi;
pub mod exchange_simulator;
pub mod instrument;
pub mod marketstackapi;
pub mod pool;
