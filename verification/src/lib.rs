//! Storage logic for time-windowed metric aggregates.
//!
//! The crate holds the decisions that two storage backends share or make on
//! their own: which statements are sent, how statement handles are issued and
//! resolved, when eviction is due, and how rows and columns are converted.
//! Connections, clocks and tasks belong to the caller.

pub mod cache;
pub mod columnar;
pub mod config;
pub mod driver;
pub mod embedded;
pub mod error;
pub mod handle;
pub mod metric_batch;
pub mod options;
pub mod record;
pub mod statement;
pub mod text;
