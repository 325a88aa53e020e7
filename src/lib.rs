//! Sequence-consistent Level-2 order books for streaming market data.
//!
//! The verified core holds the price ladder, the per-product sequence
//! algebra, the bootstrap / resync state machine, the configuration of
//! subscriptions, and the text framing and decoding of venue messages.
//! Transport, REST and JSON parsing live outside it and hand plain values in.
pub mod book;
pub mod config;
pub mod decimal;
pub mod frames;
pub mod ladder;
pub mod protocol;
pub mod subscription;
pub mod sync;
pub mod text;
pub mod trade;

pub use book::Depth;
pub use config::{Config, ExchangeType};
pub use ladder::Quote;
pub use subscription::TickerManager;
pub use trade::{OrderDirection, Ticker};
