//! Tests for the post-processor: the static-analysis-hazard patch, the
//! base64 embedding round trip, and the CommonJS payload extraction.

use wasm_bodge::errors::BuildError;
use wasm_bodge::post_process::{
    apply_vite_fix, base64_esm_module, cjs_base64_from_esm, generate_base64_module,
    nodejs_rename_paths,
};

#[test]
fn test_vite_fix_patches_the_construct() {
    let source = "let x = new URL('my_lib_bg.wasm', import.meta.url);\n";
    let patched = apply_vite_fix(source, "my_lib");
    assert_eq!(
        patched,
        "let x = new /* @vite-ignore */ URL('my_lib_bg.wasm', import.meta.url);\n"
    );
    // The original construct is still present, immediately preceded by the
    // suppression comment
    assert!(patched.contains("new /* @vite-ignore */ URL('my_lib_bg.wasm', import.meta.url)"));
}

#[test]
fn test_vite_fix_leaves_other_urls_alone() {
    let source = "new URL('other.wasm', import.meta.url);\nnew URL('my_lib_bg.wasm', import.meta.url);\nnew URL('my_other_lib_bg.wasm', import.meta.url);\n";
    let patched = apply_vite_fix(source, "my_lib");
    // Only the literally matching occurrence is altered
    assert!(patched.contains("new URL('other.wasm', import.meta.url);"));
    assert!(patched.contains("new URL('my_other_lib_bg.wasm', import.meta.url);"));
    assert!(patched.contains("new /* @vite-ignore */ URL('my_lib_bg.wasm', import.meta.url);"));
    assert_eq!(patched.matches("@vite-ignore").count(), 1);
}

#[test]
fn test_vite_fix_absent_construct_is_not_an_error() {
    let source = "export function add(a, b) { return a + b; }\n";
    assert_eq!(apply_vite_fix(source, "my_lib"), source);
}

#[test]
fn test_vite_fix_patches_every_occurrence() {
    let source = "new URL('m_bg.wasm', import.meta.url) new URL('m_bg.wasm', import.meta.url)";
    let patched = apply_vite_fix(source, "m");
    assert_eq!(patched.matches("@vite-ignore").count(), 2);
}

#[test]
fn test_base64_module_round_trip() {
    // A buffer containing all 256 byte values
    let bytes: Vec<u8> = (0..=255u8).collect();
    let module = generate_base64_module(&bytes);
    assert!(module.starts_with("export const wasmBase64 = \""));
    assert!(module.ends_with("\";\n"));

    // Decoding the embedded payload reproduces the exact original bytes
    let payload = module.split('"').nth(1).unwrap();
    let decoded =
        base64::Engine::decode(&base64::engine::general_purpose::STANDARD, payload).unwrap();
    assert_eq!(decoded, bytes);
}

#[test]
fn test_base64_empty_payload() {
    let module = generate_base64_module(&[]);
    assert_eq!(module, "export const wasmBase64 = \"\";\n");
}

#[test]
fn test_base64_exact_encoding() {
    // "hello" under the standard alphabet, padded
    let module = generate_base64_module(b"hello");
    assert_eq!(module, "export const wasmBase64 = \"aGVsbG8=\";\n");
    assert_eq!(base64_esm_module("aGVsbG8="), "export const wasmBase64 = \"aGVsbG8=\";\n");
}

#[test]
fn test_cjs_base64_from_esm() {
    let esm = "export const wasmBase64 = \"aGVsbG8=\";\n";
    let cjs = cjs_base64_from_esm(esm).unwrap();
    assert_eq!(cjs, "module.exports.wasmBase64 = \"aGVsbG8=\";\n");

    // The CJS payload decodes to the same bytes
    let payload = cjs.split('"').nth(1).unwrap();
    let decoded =
        base64::Engine::decode(&base64::engine::general_purpose::STANDARD, payload).unwrap();
    assert_eq!(decoded, b"hello");
}

#[test]
fn test_cjs_base64_from_malformed_module() {
    assert_eq!(
        cjs_base64_from_esm("no quoted payload here"),
        Err(BuildError::MalformedBase64Module)
    );
    assert_eq!(
        cjs_base64_from_esm("").unwrap_err().message(),
        "failed to parse base64 payload module"
    );
}

#[test]
fn test_nodejs_rename_paths() {
    let (js, cjs) = nodejs_rename_paths("my_lib");
    assert_eq!(js, "wasm_bindgen/nodejs/my_lib.js");
    assert_eq!(cjs, "wasm_bindgen/nodejs/my_lib.cjs");
}
