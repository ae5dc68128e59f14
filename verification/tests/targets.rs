//! Tests for the declarative environment model and the root export mapping.

use wasm_bodge::paths;
use wasm_bodge::targets::{
    root_export_mapping, Environment, ExportCondition, InitStrategy, WasmBindgenTarget,
};

#[test]
fn test_browser_export_mapping() {
    // "How is the browser export built?"
    let mappings = root_export_mapping();
    let mapping = mappings
        .iter()
        .find(|m| matches!(m.condition, ExportCondition::Browser))
        .unwrap();

    // Browser uses Bundler environment for ESM
    assert_eq!(mapping.esm, Environment::Bundler);
    // Browser uses Web environment for CJS (fallback)
    assert_eq!(mapping.cjs, Environment::Web);

    // Bundler environment uses the bundler binding target
    assert_eq!(mapping.esm.wasm_bindgen_target(), WasmBindgenTarget::Bundler);

    // The ESM entrypoint path
    assert_eq!(paths::esm_entrypoint(mapping.esm), "esm/bundler.js");

    // Which re-exports from
    assert_eq!(
        paths::wasm_bindgen_js(WasmBindgenTarget::Bundler, "my_lib"),
        "wasm_bindgen/bundler/my_lib.js"
    );
}

#[test]
fn test_workerd_export_mapping() {
    let mappings = root_export_mapping();
    let mapping = mappings
        .iter()
        .find(|m| matches!(m.condition, ExportCondition::Workerd))
        .unwrap();

    assert_eq!(mapping.esm, Environment::Workerd);
    assert_eq!(mapping.cjs, Environment::Web); // falls back to web for CJS

    // Workerd uses the web target with sync wasm import
    assert_eq!(mapping.esm.wasm_bindgen_target(), WasmBindgenTarget::Web);
    assert!(matches!(
        mapping.esm.init_strategy(),
        InitStrategy::SyncWasmImport
    ));
}

#[test]
fn test_all_environments_order() {
    let envs = Environment::all();
    assert_eq!(
        envs,
        vec![
            Environment::Node,
            Environment::Web,
            Environment::Bundler,
            Environment::Workerd,
            Environment::Slim,
        ]
    );
}

#[test]
fn test_all_targets_order() {
    assert_eq!(
        WasmBindgenTarget::all(),
        vec![
            WasmBindgenTarget::Nodejs,
            WasmBindgenTarget::Web,
            WasmBindgenTarget::Bundler,
        ]
    );
    assert_eq!(WasmBindgenTarget::Nodejs.as_str(), "nodejs");
    assert_eq!(WasmBindgenTarget::Web.dir_name(), "web");
    assert_eq!(WasmBindgenTarget::Bundler.as_str(), "bundler");
}

#[test]
fn test_mapping_order_specific_before_fallbacks() {
    let mappings = root_export_mapping();
    let conds: Vec<&'static str> = mappings.iter().map(|m| m.condition.as_str()).collect();
    assert_eq!(conds, vec!["workerd", "node", "browser", "import", "require"]);
}

#[test]
fn test_needs_cjs_bundle_flags() {
    assert!(!Environment::Node.needs_cjs_bundle());
    assert!(Environment::Web.needs_cjs_bundle());
    assert!(!Environment::Bundler.needs_cjs_bundle());
    assert!(!Environment::Workerd.needs_cjs_bundle());
    assert!(Environment::Slim.needs_cjs_bundle());
}

#[test]
fn test_file_stems() {
    assert_eq!(Environment::Node.file_stem(), "node");
    assert_eq!(Environment::Web.file_stem(), "web");
    assert_eq!(Environment::Bundler.file_stem(), "bundler");
    assert_eq!(Environment::Workerd.file_stem(), "workerd");
    assert_eq!(Environment::Iife.file_stem(), "index");
    assert_eq!(Environment::Slim.file_stem(), "slim");
}

#[test]
fn test_init_strategies() {
    assert!(matches!(Environment::Node.init_strategy(), InitStrategy::AutoNodejs));
    assert!(matches!(Environment::Web.init_strategy(), InitStrategy::Base64Embedded));
    assert!(matches!(Environment::Bundler.init_strategy(), InitStrategy::BundlerPassthrough));
    assert!(matches!(Environment::Workerd.init_strategy(), InitStrategy::SyncWasmImport));
    assert!(matches!(Environment::Iife.init_strategy(), InitStrategy::Base64Embedded));
    assert!(matches!(Environment::Slim.init_strategy(), InitStrategy::Manual));
}

#[test]
fn test_export_condition_names() {
    assert_eq!(ExportCondition::Node.as_str(), "node");
    assert_eq!(ExportCondition::Browser.as_str(), "browser");
    assert_eq!(ExportCondition::Workerd.as_str(), "workerd");
    assert_eq!(ExportCondition::Import.as_str(), "import");
    assert_eq!(ExportCondition::Require.as_str(), "require");
}
