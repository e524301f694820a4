//! Builds the crates that depend on a target crate, first as they are and then against a
//! patched target, and keeps the books on which of them still build.

pub mod address;
pub mod cache;
pub mod checkout;
pub mod command;
pub mod error;
pub mod experiment;
pub mod fetch;
pub mod laws;
pub mod laws_manifest;
pub mod laws_registry;
pub mod laws_run;
pub mod laws_screen;
pub mod layout;
pub mod manifest;
pub mod message;
pub mod options;
pub mod order;
pub mod outside;
pub mod registry;
pub mod requirement;
pub mod saturate;
pub mod scroll;
pub mod state;
pub mod statistics;
pub mod text;
pub mod trace;
pub mod ui;
