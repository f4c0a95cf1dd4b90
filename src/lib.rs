//! Multi-resolution clustering of geographic points for map rendering.
//!
//! `config` checks the zoom range and cluster size, `engine` owns the
//! per-zoom index and answers which zoom a cluster splits at, `payload`
//! reads point attributes from their JSON text, and `records` checks the
//! shape of the records that go in and come out.

pub mod config;
pub mod engine;
pub mod payload;
pub mod records;
