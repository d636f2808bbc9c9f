//! A multi-surface event reconciliation engine for layer-shell user interfaces.
//!
//! The crate keeps the bookkeeping between compositor surfaces and UI windows,
//! translates compositor input into UI events, and turns UI window actions back
//! into compositor requests. Every decision is stated as a contract over plain
//! values and proved.
pub mod actions;
pub mod cache;
pub mod command;
pub mod conversion;
pub mod cursor;
pub mod dispatch;
pub mod engine;
pub mod event;
pub mod registry;
