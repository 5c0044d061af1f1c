//! Core logic of a resumable, filtered, concurrency-bounded download
//! orchestrator: pattern filtering with AND semantics, date thresholds,
//! resumable transfer planning, pagination, permit accounting and
//! cooperative cancellation. Network and filesystem work live outside;
//! every decision made here is verified.

pub mod api_path;
pub mod config;
pub mod date;
pub mod error;
pub mod filter;
pub mod pagination;
pub mod pattern;
pub mod post;
pub mod sched;
pub mod text;
pub mod transfer;
