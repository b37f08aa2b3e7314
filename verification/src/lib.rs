//! Lifecycle rules of on-chain credit lines.
//!
//! A credit line is opened, suspended, closed, defaulted, reinstated, written off and settled
//! after liquidation. This crate decides each of those calls: which calls are refused and why,
//! and what an accepted call leaves in storage and announces to listeners.

pub mod address_map;
pub mod auth;
pub mod batch;
pub mod book;
pub mod effects;
pub mod events;
pub mod history;
pub mod laws;
pub mod lifecycle;
pub mod model;
pub mod storage;
pub mod totals;
pub mod types;
