//! A small storage abstraction: a dataset names one whole file, either on the
//! local file system or as an object in an S3 bucket, and the path's first
//! segment decides which.
pub mod address;
pub mod backend;
pub mod client;
pub mod config;
pub mod dataset;
pub mod error;
pub mod store;
pub mod text;
