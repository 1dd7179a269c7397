//! Typed builders for GitHub Actions workflows.
//!
//! A workflow is assembled from plain data structures (jobs, steps, events,
//! permissions), conditions are built as small expression trees and rendered
//! to the `${{ ... }}` interpolation syntax, and the dependencies between jobs
//! are resolved to job identifiers before the workflow leaves the library.

pub mod artifacts;
pub mod cargo;
pub mod combine;
pub mod concurrency;
pub mod container;
pub mod ctx;
pub mod data;
pub mod defaults;
pub mod env;
pub mod environment;
pub mod error;
pub mod event;
pub mod expr;
pub mod expression;
pub mod generate;
pub mod job;
pub mod mustache;
pub mod ordered;
pub mod permissions;
mod private;
pub mod release_plz;
pub mod rust_flag;
pub mod secret;
pub mod standard;
pub mod step;
pub mod strategy;
pub mod text;
pub mod toolchain;
pub mod value;
pub mod workflow;
