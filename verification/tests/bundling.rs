//! Tests for the bundler invoker decisions: the planned invocations and
//! their exact argument lists.

use wasm_bodge::bundling::{bundle_jobs, esbuild_args, BundleFormat};

#[test]
fn test_bundle_jobs_for_my_lib() {
    let jobs = bundle_jobs("my-lib");
    // The global-script bundle first, then one CJS bundle per environment
    // whose flag asks for it (web and slim)
    assert_eq!(jobs.len(), 3);

    assert_eq!(jobs[0].input, "esm/web.js");
    assert_eq!(jobs[0].output, "iife/index.js");
    assert_eq!(jobs[0].format, BundleFormat::Iife);
    // The package name in its capitalized-identifier form
    assert_eq!(jobs[0].global_name.as_deref(), Some("MyLib"));

    assert_eq!(jobs[1].input, "esm/web.js");
    assert_eq!(jobs[1].output, "cjs/web.cjs");
    assert_eq!(jobs[1].format, BundleFormat::Cjs);
    assert_eq!(jobs[1].global_name, None);

    assert_eq!(jobs[2].input, "esm/slim.js");
    assert_eq!(jobs[2].output, "cjs/slim.cjs");
    assert_eq!(jobs[2].format, BundleFormat::Cjs);
    assert_eq!(jobs[2].global_name, None);
}

#[test]
fn test_global_name_forms() {
    assert_eq!(bundle_jobs("test-wasm-lib")[0].global_name.as_deref(), Some("TestWasmLib"));
    assert_eq!(bundle_jobs("my_lib")[0].global_name.as_deref(), Some("MyLib"));
}

#[test]
fn test_esbuild_args_for_cjs_bundle() {
    let jobs = bundle_jobs("my-lib");
    let args = esbuild_args(&jobs[1]);
    assert_eq!(
        args,
        vec![
            "esm/web.js".to_string(),
            "--bundle".to_string(),
            "--format=cjs".to_string(),
            "--outfile=cjs/web.cjs".to_string(),
            "--log-override:empty-import-meta=silent".to_string(),
            "--platform=node".to_string(),
        ]
    );
}

#[test]
fn test_esbuild_args_for_iife_bundle() {
    let jobs = bundle_jobs("my-lib");
    let args = esbuild_args(&jobs[0]);
    assert_eq!(
        args,
        vec![
            "esm/web.js".to_string(),
            "--bundle".to_string(),
            "--format=iife".to_string(),
            "--outfile=iife/index.js".to_string(),
            "--log-override:empty-import-meta=silent".to_string(),
            "--global-name=MyLib".to_string(),
        ]
    );
}
