//! A durable workstation daemon: its state, its rules, and its wire vocabulary.
pub mod approval;
pub mod approvals;
pub mod attempts;
pub mod begin;
pub mod binding;
pub mod broker;
pub mod cancel;
pub mod catalogs;
pub mod consistency;
pub mod deliverables;
pub mod digest;
pub mod dispatch;
pub mod error;
pub mod executions;
pub mod executor;
pub mod expiry;
pub mod finish;
pub mod grants;
pub mod graph;
pub mod identity;
pub mod ipc;
pub mod json;
pub mod launch;
pub mod laws;
pub mod lifecycle;
pub mod listing;
pub mod m3;
pub mod migrations;
pub mod native_credentials;
pub mod policy;
pub mod preflight;
pub mod promises;
pub mod protocol;
pub mod recovery;
pub mod registry;
pub mod runs;
pub mod sandbox;
pub mod staged;
pub mod staging;
pub mod store;
pub mod text;
pub mod uid;
