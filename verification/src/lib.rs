//! Release and deployment engine for packaged plugins: change analysis,
//! semantic versioning, release orchestration and the merge of the remote
//! plugin index.

pub mod analyzer;
pub mod builder;
pub mod checksum;
pub mod classifier;
pub mod commands;
pub mod config;
pub mod content;
pub mod dates;
pub mod deployer;
pub mod descriptor;
pub mod enhanced;
pub mod env;
pub mod error;
pub mod history;
pub mod index;
pub mod llm;
pub mod models;
pub mod network;
pub mod notes;
pub mod number;
pub mod paths;
pub mod pattern;
pub mod pipeline;
pub mod plugin_xml;
pub mod readiness;
pub mod releaser;
pub mod remote;
pub mod report;
pub mod repository;
pub mod security;
pub mod service;
pub mod service_error;
pub mod split;
pub mod tags;
pub mod text;
pub mod transaction;
pub mod version;
pub mod xml;
