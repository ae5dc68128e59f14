//! Configuration for one build run.

use vstd::prelude::*;

verus! {

/// Configuration for the build command. Paths are carried as plain text;
/// the caller resolves them against the filesystem.
#[derive(Debug)]
pub struct BuildConfig {
    pub crate_path: String,
    pub package_json: String,
    pub out_dir: String,
    pub profile: String,
    pub wasm_bindgen_tar: Option<String>,
}

} // verus!
