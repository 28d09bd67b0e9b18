//! Core of a controllable background resource fetcher.
//!
//! The library holds the verified logic of the fetcher: the shared
//! [`state::FetchState`] that coordinates a fetch loop with its callers, the
//! redirect-following retrieval protocol of [`fetcher`], the loop semantics of
//! [`fetch_loop`], the single-shot result handling of [`single_shot`], and the
//! greeting counters of [`greetings`]. Network and file transport sit outside
//! the library and drive it with plain values.

pub mod digits;
pub mod errors;
pub mod fetch_loop;
pub mod fetcher;
pub mod greetings;
pub mod single_shot;
pub mod state;
