//! An HTTP load-generation engine: the configuration, stop bound, response
//! classification, latency and outcome aggregation, and cancellation rules
//! that drive a pool of concurrent request workers.
pub mod cancel;
pub mod classify;
pub mod config;
pub mod error;
pub mod headers;
pub mod metrics;
pub mod pattern;
pub mod plan;
pub mod stop;
pub mod time;
pub mod worker;

pub use classify::{Reply, Verdict};
pub use config::{Config, Method};
pub use error::InquisitorError;
pub use metrics::Metrics;
