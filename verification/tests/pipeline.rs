//! Tests for the pipeline decisions: phase order and abort semantics, the
//! external tool argument lists, and the descriptor readers.

use wasm_bodge::config::BuildConfig;
use wasm_bodge::errors::BuildError;
use wasm_bodge::json::Json;
use wasm_bodge::pipeline::{
    bindings_source, cargo_profile_flag, crate_name_from_manifest, finalize_manifest, first_phase,
    next_phase, relative_out_dir, target_dir_from_metadata, wasm_artifact_path, wasm_bindgen_args,
    BindingsSource, Phase,
};
use wasm_bodge::strutil::dash_to_underscore;
use wasm_bodge::targets::WasmBindgenTarget;

#[test]
fn test_phase_order() {
    assert_eq!(first_phase(), Phase::ObtainBindings);
    assert_eq!(next_phase(Phase::ObtainBindings, true), Some(Phase::PostProcess));
    assert_eq!(next_phase(Phase::PostProcess, true), Some(Phase::GenerateEntrypoints));
    assert_eq!(next_phase(Phase::GenerateEntrypoints, true), Some(Phase::Finalize));
    assert_eq!(next_phase(Phase::Finalize, true), None);
}

#[test]
fn test_failed_phase_aborts() {
    assert_eq!(next_phase(Phase::ObtainBindings, false), None);
    assert_eq!(next_phase(Phase::PostProcess, false), None);
    assert_eq!(next_phase(Phase::GenerateEntrypoints, false), None);
}

#[test]
fn test_bindings_source() {
    let with_tar = BuildConfig {
        crate_path: ".".to_string(),
        package_json: "./package.json".to_string(),
        out_dir: "./dist".to_string(),
        profile: "release".to_string(),
        wasm_bindgen_tar: Some("prebuilt.tar.gz".to_string()),
    };
    match bindings_source(&with_tar) {
        BindingsSource::Tarball(p) => assert_eq!(p, "prebuilt.tar.gz"),
        BindingsSource::Compile => panic!("expected the archive"),
    }
    let without = BuildConfig { wasm_bindgen_tar: None, ..with_tar };
    assert!(matches!(bindings_source(&without), BindingsSource::Compile));
}

#[test]
fn test_cargo_profile_flag() {
    assert_eq!(cargo_profile_flag("release"), "--release");
    assert_eq!(cargo_profile_flag("dev"), "--profile=dev");
    assert_eq!(cargo_profile_flag("bench"), "--profile=bench");
}

#[test]
fn test_wasm_artifact_path() {
    assert_eq!(
        wasm_artifact_path("/work/target", "release", "my-lib"),
        "/work/target/wasm32-unknown-unknown/release/my_lib.wasm"
    );
    assert_eq!(dash_to_underscore("a-b-c"), "a_b_c");
}

#[test]
fn test_wasm_bindgen_args() {
    let args = wasm_bindgen_args("target/my_lib.wasm", "dist/wasm_bindgen/web", WasmBindgenTarget::Web);
    assert_eq!(
        args,
        vec![
            "target/my_lib.wasm".to_string(),
            "--out-dir".to_string(),
            "dist/wasm_bindgen/web".to_string(),
            "--target".to_string(),
            "web".to_string(),
            "--weak-refs".to_string(),
        ]
    );
}

#[test]
fn test_crate_name_from_manifest() {
    let manifest = "[package]\nname = \"my-lib\"\nversion = \"0.1.0\"\n";
    assert_eq!(crate_name_from_manifest(manifest).unwrap(), "my-lib");
}

#[test]
fn test_crate_name_missing() {
    assert_eq!(
        crate_name_from_manifest("[package]\nversion = \"0.1.0\"\n"),
        Err(BuildError::MissingPackageName)
    );
    assert_eq!(
        crate_name_from_manifest("not toml at all {{{").unwrap_err().message(),
        "could not find package name in crate manifest"
    );
}

#[test]
fn test_target_dir_from_metadata() {
    let metadata = Json::Obj(vec![(
        "target_directory".to_string(),
        Json::Str("/work/target".to_string()),
    )]);
    assert_eq!(target_dir_from_metadata(&metadata), Some("/work/target".to_string()));
    assert_eq!(target_dir_from_metadata(&Json::Obj(vec![])), None);
    assert_eq!(target_dir_from_metadata(&Json::Null), None);
}

#[test]
fn test_relative_out_dir() {
    assert_eq!(relative_out_dir("/a/b/dist", "/a/b").unwrap(), "dist");
    assert_eq!(
        relative_out_dir("/a/b/crate/dist", "/a/b/other").unwrap(),
        format!("..{}crate{}dist", std::path::MAIN_SEPARATOR, std::path::MAIN_SEPARATOR)
    );
    // A relative path against an absolute base has no relative form
    assert_eq!(relative_out_dir("dist", "/a/b"), Err(BuildError::NoRelativePath));
}

#[test]
fn test_finalize_manifest() {
    let manifest = Json::Obj(vec![("name".to_string(), Json::Str("p".to_string()))]);
    let updated = finalize_manifest(manifest, "/a/b/dist", "/a/b", "p").unwrap();
    match &updated {
        Json::Obj(entries) => {
            let main = entries.iter().find(|(k, _)| k == "main").unwrap();
            assert_eq!(main.1, Json::Str("./dist/cjs/node.cjs".to_string()));
        }
        _ => panic!("not an object"),
    }
    assert_eq!(
        finalize_manifest(Json::Null, "/a/b/dist", "/a/b", "p"),
        Err(BuildError::ManifestNotObject)
    );
    assert_eq!(
        finalize_manifest(Json::Null, "dist", "/a/b", "p"),
        Err(BuildError::NoRelativePath)
    );
}
