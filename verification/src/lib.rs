//! Verified core of the Pipelite CRM command-line client.

pub mod api;
pub mod batch;
pub mod cache;
pub mod cli;
pub mod commands;
pub mod config;
pub mod error;
pub mod json;
pub mod keyed;
pub mod table;
pub mod text;
