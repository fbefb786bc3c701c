//! Periodic network-speed measurements, cached and served on demand.
//!
//! The crate holds the core of a small status service: a canonical
//! measurement model with an exact rate derivation, a parser for the
//! measurement tool's JSON output, a concurrency-safe single-slot result
//! cache, a scheduler that refreshes the cache once per tick, and a
//! read-only query path. Process plumbing (HTTP, environment, spawning
//! the external tool) lives outside this library.

pub mod cache;
pub mod digits;
pub mod json;
pub mod models;
pub mod parser;
pub mod scheduler;

pub use cache::CacheEntry;
pub use cache::CacheSlot;
pub use cache::NotReadyError;
pub use cache::ResultCache;
pub use cache::clear_last_result_for_test;
pub use cache::get_cached_speedtest_result;
pub use cache::get_last_result;
pub use cache::set_last_result_for_test;

pub use models::ClientInfo;
pub use models::Mbps;
pub use models::ServerInfo;
pub use models::SpeedTestResponse;
pub use models::SpeedTestResult;
pub use models::canonicalize;
pub use models::mbps_from_bps;
pub use parser::ParseError;
pub use parser::parse;
pub use scheduler::CycleError;
pub use scheduler::RunnerError;
pub use scheduler::SpeedtestRunner;
pub use scheduler::classify_tool_output;
pub use scheduler::min_frequency_duration;
pub use scheduler::record_run_outcome;
pub use scheduler::run_speedtest_and_cache_with_runner;
