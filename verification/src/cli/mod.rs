//! The arguments of each command, as parsed from the command line.

pub mod activities;
pub mod audit;
pub mod cache;
pub mod config;
pub mod custom_fields;
pub mod dashboard;
pub mod deals;
pub mod docs;
pub mod init;
pub mod notes;
pub mod orgs;
pub mod people;
pub mod pipelines;
pub mod stages;
pub mod templates;
pub mod trash;
pub mod webhooks;
pub mod workflows;
