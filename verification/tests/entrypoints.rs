//! Tests for entrypoint content synthesis: exact contents per environment,
//! non-emptiness and strategy markers, and the write plan.

use wasm_bodge::entrypoints::{entrypoint_plan, generate_cjs_entrypoint, generate_esm_entrypoint};
use wasm_bodge::targets::Environment;

#[test]
fn test_esm_node_content() {
    assert_eq!(
        generate_esm_entrypoint(Environment::Node, "my_lib"),
        "export * from '../wasm_bindgen/nodejs/my_lib.cjs';\n"
    );
}

#[test]
fn test_esm_bundler_content() {
    assert_eq!(
        generate_esm_entrypoint(Environment::Bundler, "my_lib"),
        "export * from '../wasm_bindgen/bundler/my_lib.js';\n"
    );
}

#[test]
fn test_esm_web_content() {
    let expected = "import { initSync } from '../wasm_bindgen/web/my_lib.js';\n\
import { wasmBase64 } from './wasm-base64.js';\n\
const bytes = Uint8Array.from(atob(wasmBase64), c => c.charCodeAt(0));\n\
initSync(bytes);\n\
export * from '../wasm_bindgen/web/my_lib.js';\n";
    assert_eq!(generate_esm_entrypoint(Environment::Web, "my_lib"), expected);
}

#[test]
fn test_esm_workerd_content() {
    let expected = "import * as exports from '../wasm_bindgen/web/my_lib.js';\n\
import { initSync } from '../wasm_bindgen/web/my_lib.js';\n\
import wasmModule from '../wasm_bindgen/web/my_lib_bg.wasm';\n\
initSync({ module: wasmModule });\n\
export * from '../wasm_bindgen/web/my_lib.js';\n";
    assert_eq!(generate_esm_entrypoint(Environment::Workerd, "my_lib"), expected);
}

#[test]
fn test_esm_slim_content() {
    let expected = "export * from '../wasm_bindgen/web/my_lib.js';\n\
export { default } from '../wasm_bindgen/web/my_lib.js';\n";
    assert_eq!(generate_esm_entrypoint(Environment::Slim, "my_lib"), expected);
}

#[test]
fn test_esm_sources_nonempty_with_markers() {
    for env in Environment::all() {
        let content = generate_esm_entrypoint(env, "my_lib");
        assert!(!content.is_empty());
    }
    // The embed-as-base64 output names the initializer and refers to the
    // base64 payload module
    let web = generate_esm_entrypoint(Environment::Web, "my_lib");
    assert!(web.contains("initSync"));
    assert!(web.contains("wasm-base64"));
    // The synchronous-binary-import output names the initializer
    let workerd = generate_esm_entrypoint(Environment::Workerd, "my_lib");
    assert!(workerd.contains("initSync"));
}

#[test]
fn test_cjs_entrypoint_only_for_node() {
    assert_eq!(
        generate_cjs_entrypoint(Environment::Node, "my_lib"),
        Some("module.exports = require('../wasm_bindgen/nodejs/my_lib.cjs');\n".to_string())
    );
    assert_eq!(generate_cjs_entrypoint(Environment::Web, "my_lib"), None);
    assert_eq!(generate_cjs_entrypoint(Environment::Bundler, "my_lib"), None);
    assert_eq!(generate_cjs_entrypoint(Environment::Workerd, "my_lib"), None);
    assert_eq!(generate_cjs_entrypoint(Environment::Slim, "my_lib"), None);
}

#[test]
fn test_entrypoint_plan_layout() {
    // The crate name is normalized: hyphens become underscores
    let plan = entrypoint_plan("my-lib");
    assert_eq!(plan.len(), 6);
    let expected_paths = [
        "esm/node.js",
        "esm/web.js",
        "esm/bundler.js",
        "esm/workerd.js",
        "esm/slim.js",
        "cjs/node.cjs",
    ];
    for (f, expect) in plan.iter().zip(expected_paths.iter()) {
        assert_eq!(&f.path, expect);
    }
    assert_eq!(plan[0].content, generate_esm_entrypoint(Environment::Node, "my_lib"));
    assert_eq!(plan[4].content, generate_esm_entrypoint(Environment::Slim, "my_lib"));
    assert_eq!(
        plan[5].content,
        "module.exports = require('../wasm_bindgen/nodejs/my_lib.cjs');\n"
    );
}
