//! Tests for the manifest synthesizer: the merged fields, the exports
//! graph, the file-inclusion merge, idempotence, and the failure case.

use wasm_bodge::errors::BuildError;
use wasm_bodge::json::Json;
use wasm_bodge::manifest::{build_exports_map, package_name_from_manifest, update_manifest};

fn obj(entries: Vec<(&str, Json)>) -> Json {
    Json::Obj(entries.into_iter().map(|(k, v)| (k.to_string(), v)).collect())
}

fn s(v: &str) -> Json {
    Json::Str(v.to_string())
}

fn get<'a>(j: &'a Json, key: &str) -> &'a Json {
    match j {
        Json::Obj(entries) => {
            for (k, v) in entries {
                if k == key {
                    return v;
                }
            }
            panic!("missing key {}", key);
        }
        _ => panic!("not an object"),
    }
}

#[test]
fn test_update_manifest_fields() {
    let manifest = obj(vec![("name", s("test-wasm-lib")), ("version", s("0.1.0"))]);
    let updated = update_manifest(manifest, "dist", "test-wasm-lib").unwrap();

    assert_eq!(get(&updated, "type"), &s("module"));
    assert_eq!(get(&updated, "main"), &s("./dist/cjs/node.cjs"));
    assert_eq!(get(&updated, "module"), &s("./dist/esm/bundler.js"));
    assert_eq!(get(&updated, "types"), &s("./dist/index.d.ts"));
    // User-authored entries keep their place and value
    assert_eq!(get(&updated, "name"), &s("test-wasm-lib"));
    assert_eq!(get(&updated, "version"), &s("0.1.0"));
    // And keep their order, ahead of the appended fields
    match &updated {
        Json::Obj(entries) => {
            assert_eq!(entries[0].0, "name");
            assert_eq!(entries[1].0, "version");
        }
        _ => panic!("not an object"),
    }
}

#[test]
fn test_root_export_structure() {
    // The end-to-end expectations for a module named my-lib
    let exports = build_exports_map("dist", "my-lib");
    let root = get(&exports, ".");

    // Types come first so that type resolution is unconditional
    match root {
        Json::Obj(entries) => assert_eq!(entries[0].0, "types"),
        _ => panic!("root export is not an object"),
    }
    assert_eq!(get(root, "types"), &s("./dist/index.d.ts"));
    // The import fallback resolves to the web ESM entrypoint
    assert_eq!(get(root, "import"), &s("./dist/esm/web.js"));
    assert_eq!(get(root, "require"), &s("./dist/cjs/web.cjs"));
    // The node condition resolves per form
    let node = get(root, "node");
    assert_eq!(get(node, "import"), &s("./dist/esm/node.js"));
    assert_eq!(get(node, "require"), &s("./dist/cjs/node.cjs"));
    // The browser condition uses the bundler ESM and the web CJS bundle
    let browser = get(root, "browser");
    assert_eq!(get(browser, "import"), &s("./dist/esm/bundler.js"));
    assert_eq!(get(browser, "require"), &s("./dist/cjs/web.cjs"));
    // The workerd condition falls back to the web CJS bundle
    let workerd = get(root, "workerd");
    assert_eq!(get(workerd, "import"), &s("./dist/esm/workerd.js"));
    assert_eq!(get(workerd, "require"), &s("./dist/cjs/web.cjs"));
}

#[test]
fn test_subpath_exports() {
    let exports = build_exports_map("dist", "my-lib");
    let slim = get(&exports, "./slim");
    assert_eq!(get(slim, "types"), &s("./dist/index.d.ts"));
    assert_eq!(get(slim, "import"), &s("./dist/esm/slim.js"));
    assert_eq!(get(slim, "require"), &s("./dist/cjs/slim.cjs"));
    // The raw-binary subpath points at the standalone file, named after the
    // package
    assert_eq!(get(&exports, "./wasm"), &s("./dist/my-lib.wasm"));
    let b64 = get(&exports, "./wasm-base64");
    assert_eq!(get(b64, "import"), &s("./dist/esm/wasm-base64.js"));
    assert_eq!(get(b64, "require"), &s("./dist/cjs/wasm-base64.cjs"));
    assert_eq!(get(&exports, "./iife"), &s("./dist/iife/index.js"));
}

#[test]
fn test_files_merge_adds_dist_once() {
    let manifest = obj(vec![("files", Json::Arr(vec![s("README.md")]))]);
    let updated = update_manifest(manifest, "dist", "p").unwrap();
    assert_eq!(get(&updated, "files"), &Json::Arr(vec![s("README.md"), s("dist")]));
}

#[test]
fn test_files_merge_no_duplicate_when_listed() {
    let manifest = obj(vec![("files", Json::Arr(vec![s("dist")]))]);
    let updated = update_manifest(manifest, "dist", "p").unwrap();
    assert_eq!(get(&updated, "files"), &Json::Arr(vec![s("dist")]));
}

#[test]
fn test_files_merge_no_duplicate_when_subpath_listed() {
    let manifest = obj(vec![("files", Json::Arr(vec![s("dist/esm")]))]);
    let updated = update_manifest(manifest, "dist", "p").unwrap();
    assert_eq!(get(&updated, "files"), &Json::Arr(vec![s("dist/esm")]));
}

#[test]
fn test_files_merge_without_files_entry() {
    let manifest = obj(vec![]);
    let updated = update_manifest(manifest, "dist", "p").unwrap();
    assert_eq!(get(&updated, "files"), &Json::Arr(vec![s("dist")]));
}

#[test]
fn test_files_merge_not_fooled_by_prefix() {
    // "distribution" is neither the output directory nor a subpath of it
    let manifest = obj(vec![("files", Json::Arr(vec![s("distribution")]))]);
    let updated = update_manifest(manifest, "dist", "p").unwrap();
    assert_eq!(
        get(&updated, "files"),
        &Json::Arr(vec![s("distribution"), s("dist")])
    );
}

#[test]
fn test_update_manifest_idempotent() {
    let manifest = obj(vec![
        ("name", s("test-wasm-lib")),
        ("files", Json::Arr(vec![s("README.md")])),
    ]);
    let once = update_manifest(manifest, "dist", "test-wasm-lib").unwrap();
    let manifest_again = obj(vec![
        ("name", s("test-wasm-lib")),
        ("files", Json::Arr(vec![s("README.md")])),
    ]);
    let reference = update_manifest(manifest_again, "dist", "test-wasm-lib").unwrap();
    assert_eq!(once, reference);
    // Running the merge on its own output changes nothing
    let twice = update_manifest(once, "dist", "test-wasm-lib").unwrap();
    assert_eq!(twice, reference);
}

#[test]
fn test_update_manifest_rejects_non_object() {
    assert_eq!(
        update_manifest(s("not an object"), "dist", "p"),
        Err(BuildError::ManifestNotObject)
    );
    assert_eq!(
        update_manifest(Json::Null, "dist", "p").unwrap_err().message(),
        "package manifest must be an object"
    );
}

#[test]
fn test_package_name_from_manifest() {
    let manifest = obj(vec![("name", s("npm-name"))]);
    assert_eq!(package_name_from_manifest(&manifest, "my_lib"), "npm-name");
    // Fallback: the crate name with underscores turned into hyphens
    let empty = obj(vec![]);
    assert_eq!(package_name_from_manifest(&empty, "my_lib"), "my-lib");
    assert_eq!(package_name_from_manifest(&Json::Null, "my_lib"), "my-lib");
}
