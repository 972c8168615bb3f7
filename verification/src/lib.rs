//! Core logic of a small task-orchestration daemon: a reconciliation
//! scheduler that pairs pending tasks with idle agents, event-source
//! ingesters with per-(card, list) deduplication, a command dispatcher with
//! chat-based authorization, and a notification queue with deterministic
//! ordering. All decisions are made over plain values; the surrounding I/O
//! (HTTP polling, the fact store, process launch) lives outside this crate.

pub mod agency;
pub mod config;
pub mod discovery;
pub mod notify;
pub mod projection;
pub mod rows;
pub mod store;
pub mod telegram;
pub mod text;
pub mod trello;
pub mod wire;
