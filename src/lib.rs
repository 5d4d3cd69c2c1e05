//! Bulk transfer engine of a command-line client for a hierarchical object
//! store (projects, datasets, object groups, objects).
//!
//! The library holds the decisions of the transfer pipelines as verified
//! code: where downloaded files go, how paginated listings are walked, how a
//! file is split into parts for a multipart upload, and how a local directory
//! tree is grouped into batches. The binary around it performs the remote
//! calls and the file I/O.

pub mod cli;
pub mod client;
pub mod commands;
pub mod config;
pub mod create;
pub mod download;
pub mod enumerate;
pub mod model;
pub mod paths;
pub mod update;
pub mod upload;
pub mod walker;
