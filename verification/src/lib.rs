//! Packages binding-generator output for consumption from every JavaScript
//! runtime: a declarative model of the supported environments, pure path
//! resolution, entrypoint source synthesis, post-processing of generated
//! sources, bundling decisions, and package-manifest synthesis.

pub mod bundling;
pub mod config;
pub mod entrypoints;
pub mod errors;
pub mod json;
pub mod manifest;
pub mod paths;
pub mod pipeline;
pub mod post_process;
pub mod strutil;
pub mod targets;
