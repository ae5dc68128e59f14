//! Pipeline orchestration decisions: the fixed phase order with its
//! abort-on-first-failure semantics, where the binding output comes from,
//! the external tool argument lists, and the manifest finalization built on
//! the relative path from the manifest's directory to the output directory.
//! Spawning processes and touching the filesystem is the caller's task.

use vstd::prelude::*;
use vstd::string::*;

use crate::config::BuildConfig;
use crate::errors::BuildError;
use crate::json::{jv, jv_obj_get, Json, JsonV};
use crate::manifest::{spec_update_manifest, update_manifest};
use crate::strutil::{spec_dash_to_underscore, dash_to_underscore, str_eq};
use crate::targets::WasmBindgenTarget;

verus! {

// ============================================================================
// Phase sequencing
// ============================================================================

/// One phase of the deterministic build pipeline, in its fixed order.
#[derive(Debug, Clone, Copy, PartialEq, Eq, Structural)]
pub enum Phase {
    /// Obtain the binding-generator output: compile and generate, or
    /// extract a prebuilt archive.
    ObtainBindings,
    /// Apply the source-level transforms to the binding output.
    PostProcess,
    /// Synthesize the entrypoints and run the bundler.
    GenerateEntrypoints,
    /// Merge the generated paths into the package manifest and copy the
    /// remaining artifacts.
    Finalize,
}

/// The successor of each phase; the run ends after finalization.
pub open spec fn spec_next_phase(p: Phase) -> Option<Phase> {
    match p {
        Phase::ObtainBindings => Some(Phase::PostProcess),
        Phase::PostProcess => Some(Phase::GenerateEntrypoints),
        Phase::GenerateEntrypoints => Some(Phase::Finalize),
        Phase::Finalize => None,
    }
}

/// The phase every run starts with.
pub fn first_phase() -> (r: Phase)
    ensures
        r == Phase::ObtainBindings,
{
    Phase::ObtainBindings
}

/// The pipeline's transition: a failed phase aborts the whole run at once;
/// a successful one hands over to the next phase in the fixed order.
pub fn next_phase(p: Phase, succeeded: bool) -> (r: Option<Phase>)
    ensures
        succeeded ==> r == spec_next_phase(p),
        !succeeded ==> r is None,
{
    if !succeeded {
        None
    } else {
        match p {
            Phase::ObtainBindings => Some(Phase::PostProcess),
            Phase::PostProcess => Some(Phase::GenerateEntrypoints),
            Phase::GenerateEntrypoints => Some(Phase::Finalize),
            Phase::Finalize => None,
        }
    }
}

/// Where the binding-generator output comes from.
#[derive(Debug)]
pub enum BindingsSource {
    /// Decompress a prebuilt archive into the binding-output directory.
    Tarball(String),
    /// Compile the module and run the binding generator for every target.
    Compile,
}

/// Chooses the source of the binding output: the prebuilt archive when the
/// configuration names one, else a fresh compilation.
pub fn bindings_source(config: &BuildConfig) -> (r: BindingsSource)
    ensures
        (config.wasm_bindgen_tar is Some) == (r is Tarball),
        r matches BindingsSource::Tarball(p) ==> config.wasm_bindgen_tar matches Some(t) && p@
            == t@,
{
    match &config.wasm_bindgen_tar {
        Some(t) => BindingsSource::Tarball(t.clone()),
        None => BindingsSource::Compile,
    }
}

// ============================================================================
// External tool argument lists
// ============================================================================

/// The cargo profile flag: the well-known release flag for the release
/// profile, the generic profile flag otherwise.
pub open spec fn spec_cargo_profile_flag(profile: Seq<char>) -> Seq<char> {
    if profile == "release"@ {
        "--release"@
    } else {
        "--profile="@ + profile
    }
}

pub fn cargo_profile_flag(profile: &str) -> (r: String)
    ensures
        r@ == spec_cargo_profile_flag(profile@),
{
    if str_eq(profile, "release") {
        String::from_str("--release")
    } else {
        let mut s = String::from_str("--profile=");
        s.append(profile);
        s
    }
}

/// Where the compiled binary lands under the cargo target directory, for
/// the wasm target and the chosen profile; the file is named after the
/// crate with hyphens normalized to underscores.
pub open spec fn spec_wasm_artifact_path(
    target_dir: Seq<char>,
    profile: Seq<char>,
    crate_name: Seq<char>,
) -> Seq<char> {
    target_dir + "/wasm32-unknown-unknown/"@ + profile + "/"@ + spec_dash_to_underscore(crate_name)
        + ".wasm"@
}

pub fn wasm_artifact_path(target_dir: &str, profile: &str, crate_name: &str) -> (r: String)
    ensures
        r@ == spec_wasm_artifact_path(target_dir@, profile@, crate_name@),
{
    let wasm_name = dash_to_underscore(crate_name);
    let mut s = String::from_str(target_dir);
    s.append("/wasm32-unknown-unknown/");
    s.append(profile);
    s.append("/");
    s.append(wasm_name.as_str());
    s.append(".wasm");
    s
}

/// The binding generator's argument list for one target: the input binary,
/// the per-target output directory, the target's identifier, and the flag
/// enabling weak-reference cleanup support.
pub open spec fn spec_wasm_bindgen_args(
    wasm_file: Seq<char>,
    target_out_dir: Seq<char>,
    target: WasmBindgenTarget,
) -> Seq<Seq<char>> {
    seq![
        wasm_file,
        "--out-dir"@,
        target_out_dir,
        "--target"@,
        target.spec_str(),
        "--weak-refs"@,
    ]
}

pub fn wasm_bindgen_args(wasm_file: &str, target_out_dir: &str, target: WasmBindgenTarget) -> (r:
    Vec<String>)
    ensures
        r.deep_view() == spec_wasm_bindgen_args(wasm_file@, target_out_dir@, target),
{
    let mut args: Vec<String> = Vec::new();
    args.push(String::from_str(wasm_file));
    args.push(String::from_str("--out-dir"));
    args.push(String::from_str(target_out_dir));
    args.push(String::from_str("--target"));
    args.push(String::from_str(target.as_str()));
    args.push(String::from_str("--weak-refs"));
    proof {
        assert(args.deep_view() =~= spec_wasm_bindgen_args(wasm_file@, target_out_dir@, target));
    }
    args
}

// ============================================================================
// Reading the crate and metadata descriptors
// ============================================================================

/// The package name the crate manifest text declares, if any.
pub uninterp spec fn toml_package_name(s: Seq<char>) -> Option<Seq<char>>;

/// Relies on toml: parses the manifest document (toml::Table's FromStr)
/// and reads the package table's name string (Table::get, Value::get,
/// Value::as_str); the result is a function of the text alone.
#[verifier::external_body]
fn parse_package_name(content: &str) -> (r: Option<String>)
    ensures
        match r {
            Some(s) => toml_package_name(content@) == Some(s@),
            None => toml_package_name(content@) is None,
        },
{
    let table: toml::Table = match content.parse() {
        Ok(t) => t,
        Err(_) => return None,
    };
    match table.get("package").and_then(|p| p.get("name")).and_then(|n| n.as_str()) {
        Some(name) => Some(name.to_string()),
        None => None,
    }
}

/// Reads the crate name from the crate manifest text; fails exactly when
/// the text does not parse or holds no package name.
pub fn crate_name_from_manifest(content: &str) -> (r: Result<String, BuildError>)
    ensures
        (r is Ok) == (toml_package_name(content@) is Some),
        r matches Ok(s) ==> toml_package_name(content@) == Some(s@),
        r matches Err(e) ==> e == BuildError::MissingPackageName,
{
    match parse_package_name(content) {
        Some(name) => Ok(name),
        None => Err(BuildError::MissingPackageName),
    }
}

/// The cargo target directory a metadata document names, if any.
pub open spec fn spec_target_directory(m: JsonV) -> Option<Seq<char>> {
    match m {
        JsonV::Obj(e) => match jv_obj_get(e, "target_directory"@) {
            Some(JsonV::Str(s)) => Some(s),
            _ => None,
        },
        _ => None,
    }
}

/// Reads the target directory out of a cargo metadata document; the
/// caller falls back to the crate-local target directory when absent.
pub fn target_dir_from_metadata(metadata: &Json) -> (r: Option<String>)
    ensures
        match r {
            Some(s) => spec_target_directory(jv(*metadata)) == Some(s@),
            None => spec_target_directory(jv(*metadata)) is None,
        },
{
    match metadata {
        Json::Obj(entries) => {
            match crate::json::entries_get(entries, "target_directory") {
                Some(j) => match j {
                    Json::Str(s) => Some(s.clone()),
                    _ => None,
                },
                None => None,
            }
        },
        _ => None,
    }
}

// ============================================================================
// Manifest finalization
// ============================================================================

/// The relative path that pathdiff computes from the base directory to the
/// given path, if one exists as text.
pub uninterp spec fn rel_path_of(path: Seq<char>, base: Seq<char>) -> Option<Seq<char>>;

/// Relies on pathdiff::diff_paths: the relative path that leads from the
/// base directory to the given path, computed from the two paths alone
/// with no filesystem access.
#[verifier::external_body]
fn diff_paths(path: &str, base: &str) -> (r: Option<String>)
    ensures
        match r {
            Some(s) => rel_path_of(path@, base@) == Some(s@),
            None => rel_path_of(path@, base@) is None,
        },
{
    pathdiff::diff_paths(std::path::Path::new(path), std::path::Path::new(base)).and_then(
        |p| p.to_str().map(|s| s.to_string()),
    )
}

/// Computes the output directory's path relative to the package manifest's
/// directory; fails exactly when no such relative path exists.
pub fn relative_out_dir(out_dir_abs: &str, package_dir_abs: &str) -> (r: Result<
    String,
    BuildError,
>)
    ensures
        (r is Ok) == (rel_path_of(out_dir_abs@, package_dir_abs@) is Some),
        r matches Ok(s) ==> rel_path_of(out_dir_abs@, package_dir_abs@) == Some(s@),
        r matches Err(e) ==> e == BuildError::NoRelativePath,
{
    match diff_paths(out_dir_abs, package_dir_abs) {
        Some(s) => Ok(s),
        None => Err(BuildError::NoRelativePath),
    }
}

/// Finalizes the package manifest: computes the output directory's path
/// relative to the manifest's own directory and merges the generated
/// fields and exports under it.
pub fn finalize_manifest(
    manifest: Json,
    out_dir_abs: &str,
    package_dir_abs: &str,
    package_name: &str,
) -> (r: Result<Json, BuildError>)
    ensures
        rel_path_of(out_dir_abs@, package_dir_abs@) is None ==> (r matches Err(e) && e
            == BuildError::NoRelativePath),
        rel_path_of(out_dir_abs@, package_dir_abs@) matches Some(rel) ==> {
            &&& (jv(manifest) is Obj) == (r is Ok)
            &&& (r matches Ok(j) ==> Some(jv(j)) == spec_update_manifest(
                jv(manifest),
                rel,
                package_name@,
            ))
            &&& (r matches Err(e) ==> e == BuildError::ManifestNotObject)
        },
{
    match relative_out_dir(out_dir_abs, package_dir_abs) {
        Err(e) => Err(e),
        Ok(rel) => update_manifest(manifest, rel.as_str(), package_name),
    }
}

} // verus!
