//! Tests for the path resolver: exact values, and purity — identical
//! arguments always yield identical paths.

use wasm_bodge::paths;
use wasm_bodge::targets::{Environment, WasmBindgenTarget};

#[test]
fn test_wasm_bindgen_paths() {
    assert_eq!(paths::wasm_bindgen_dir(WasmBindgenTarget::Nodejs), "wasm_bindgen/nodejs");
    assert_eq!(paths::wasm_bindgen_dir(WasmBindgenTarget::Web), "wasm_bindgen/web");
    assert_eq!(paths::wasm_bindgen_dir(WasmBindgenTarget::Bundler), "wasm_bindgen/bundler");

    // The nodejs target's primary file alone carries the CommonJS extension
    assert_eq!(
        paths::wasm_bindgen_js(WasmBindgenTarget::Nodejs, "my_lib"),
        "wasm_bindgen/nodejs/my_lib.cjs"
    );
    assert_eq!(
        paths::wasm_bindgen_js(WasmBindgenTarget::Web, "my_lib"),
        "wasm_bindgen/web/my_lib.js"
    );
    assert_eq!(
        paths::wasm_bindgen_bg_wasm(WasmBindgenTarget::Web, "my_lib"),
        "wasm_bindgen/web/my_lib_bg.wasm"
    );
    assert_eq!(
        paths::wasm_bindgen_dts(WasmBindgenTarget::Nodejs, "my_lib"),
        "wasm_bindgen/nodejs/my_lib.d.ts"
    );
}

#[test]
fn test_entrypoint_paths() {
    assert_eq!(paths::esm_entrypoint(Environment::Node), "esm/node.js");
    assert_eq!(paths::esm_entrypoint(Environment::Web), "esm/web.js");
    assert_eq!(paths::esm_entrypoint(Environment::Bundler), "esm/bundler.js");
    assert_eq!(paths::esm_entrypoint(Environment::Workerd), "esm/workerd.js");
    assert_eq!(paths::esm_entrypoint(Environment::Slim), "esm/slim.js");
    assert_eq!(paths::cjs_entrypoint(Environment::Node), "cjs/node.cjs");
    assert_eq!(paths::cjs_entrypoint(Environment::Web), "cjs/web.cjs");
    assert_eq!(paths::cjs_entrypoint(Environment::Slim), "cjs/slim.cjs");
}

#[test]
fn test_fixed_paths() {
    assert_eq!(paths::iife_bundle(), "iife/index.js");
    assert_eq!(paths::wasm_base64_esm(), "esm/wasm-base64.js");
    assert_eq!(paths::wasm_base64_cjs(), "cjs/wasm-base64.cjs");
    assert_eq!(paths::types(), "index.d.ts");
    // The standalone binary is named after the package, not the module
    assert_eq!(paths::standalone_wasm("my-lib"), "my-lib.wasm");
}

#[test]
fn test_path_functions_are_pure() {
    // Identical arguments yield identical results, call after call
    for _ in 0..2 {
        assert_eq!(
            paths::esm_entrypoint(Environment::Workerd),
            paths::esm_entrypoint(Environment::Workerd)
        );
        assert_eq!(
            paths::wasm_bindgen_js(WasmBindgenTarget::Nodejs, "pkg"),
            paths::wasm_bindgen_js(WasmBindgenTarget::Nodejs, "pkg")
        );
        assert_eq!(paths::standalone_wasm("a-b"), paths::standalone_wasm("a-b"));
        assert_eq!(paths::iife_bundle(), paths::iife_bundle());
    }
}
