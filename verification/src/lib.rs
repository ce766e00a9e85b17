//! Build pipeline for projects that hold several smart-contract components:
//! scanning for inline text-format contracts, post-processing of compiled
//! modules, and the decisions of the per-component build and of the schedule
//! that runs it.

pub mod component;
pub mod error;
pub mod gateway;
pub mod manifest;
pub mod memory;
pub mod metadata;
pub mod module;
pub mod options;
pub mod paths;
pub mod pattern;
pub mod pipeline;
pub mod postprocess;
pub mod scanner;
pub mod schedule;
pub mod testing;
pub mod text;
pub mod toolchain;
