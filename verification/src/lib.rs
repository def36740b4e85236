//! Core of a chat-bot command interpreter: command routing, a two-tier
//! key lookup (mutable alias store over an immutable dictionary), and a
//! small resistance-check calculation.

pub mod dice;
pub mod dict;
pub mod kv;
pub mod numbers;
pub mod router;
pub mod store;
pub mod text;
