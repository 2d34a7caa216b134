//! Resilient, bounded-concurrency playlist downloading: the decision logic of
//! the stream reader, the retrying fetcher, the per-track pipeline and the
//! batch scheduler, stated and proved over mathematical models.

pub mod batch;
pub mod config;
pub mod download;
pub mod metadata;
pub mod pipeline;
pub mod stream;
pub mod text;
pub mod util;
