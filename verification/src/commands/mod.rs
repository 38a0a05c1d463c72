//! The decisions of the command handlers.

pub mod config;
pub mod deals;
pub mod activities;
pub mod audit;
pub mod custom_field_flags;
pub mod custom_fields;
pub mod custom_fields_update;
pub mod docs;
pub mod pagination;
pub mod notes;
