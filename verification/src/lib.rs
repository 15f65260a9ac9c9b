//! Core of an automated on-chain opportunity-capture agent.
//!
//! The library holds the verified decision-and-execution pipeline: analysing a
//! pending transaction for an exploitable pattern, turning the resulting
//! signal into a profit/cost/risk-gated opportunity, and driving a single
//! execution attempt through its state machine under a fixed-budget run loop.
//! Network transport, signing and configuration live outside the library and
//! hand it plain values.

pub mod amount;
pub mod analyzer;
pub mod controller;
pub mod engine;
pub mod hexstr;
pub mod types;
