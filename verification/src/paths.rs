//! Path resolver: pure functions mapping environments, binding targets and
//! package names to canonical relative output paths.
//!
//! Every path is relative to the output directory. All functions here are
//! total, deterministic functions of their arguments: each one's result is
//! pinned to a spec function of the inputs alone, so identical inputs always
//! yield identical paths.

use vstd::prelude::*;
use vstd::string::*;

use crate::targets::{Environment, WasmBindgenTarget};

verus! {

/// Relative path of the binding-generator output directory: wasm_bindgen/{target}
pub open spec fn spec_wasm_bindgen_dir(target: WasmBindgenTarget) -> Seq<char> {
    "wasm_bindgen/"@ + target.spec_str()
}

/// Path to the binding-generator output directory: wasm_bindgen/{target}
pub fn wasm_bindgen_dir(target: WasmBindgenTarget) -> (r: String)
    ensures
        r@ == spec_wasm_bindgen_dir(target),
{
    let mut s = String::from_str("wasm_bindgen/");
    s.append(target.dir_name());
    s
}

/// The extension of a binding-generator primary JS file: the nodejs target's
/// output physically holds CommonJS code, so it alone gets the CommonJS
/// extension; every other target's output is a plain script file.
pub open spec fn spec_wasm_bindgen_js_ext(target: WasmBindgenTarget) -> Seq<char> {
    if target == WasmBindgenTarget::Nodejs {
        "cjs"@
    } else {
        "js"@
    }
}

/// Relative path of the binding-generator primary JS file:
/// wasm_bindgen/{target}/{name}.js (or .cjs for the nodejs target)
pub open spec fn spec_wasm_bindgen_js(target: WasmBindgenTarget, wasm_name: Seq<char>) -> Seq<
    char,
> {
    spec_wasm_bindgen_dir(target) + "/"@ + wasm_name + "."@ + spec_wasm_bindgen_js_ext(target)
}

/// Path to the binding-generator JS file: wasm_bindgen/{target}/{name}.js
/// (or .cjs for nodejs)
pub fn wasm_bindgen_js(target: WasmBindgenTarget, wasm_name: &str) -> (r: String)
    ensures
        r@ == spec_wasm_bindgen_js(target, wasm_name@),
{
    let ext = if target == WasmBindgenTarget::Nodejs {
        "cjs"
    } else {
        "js"
    };
    let mut s = wasm_bindgen_dir(target);
    s.append("/");
    s.append(wasm_name);
    s.append(".");
    s.append(ext);
    s
}

/// Relative path of a target's compiled binary: wasm_bindgen/{target}/{name}_bg.wasm
pub open spec fn spec_wasm_bindgen_bg_wasm(
    target: WasmBindgenTarget,
    wasm_name: Seq<char>,
) -> Seq<char> {
    spec_wasm_bindgen_dir(target) + "/"@ + wasm_name + "_bg.wasm"@
}

/// Path to a target's compiled binary: wasm_bindgen/{target}/{name}_bg.wasm
pub fn wasm_bindgen_bg_wasm(target: WasmBindgenTarget, wasm_name: &str) -> (r: String)
    ensures
        r@ == spec_wasm_bindgen_bg_wasm(target, wasm_name@),
{
    let mut s = wasm_bindgen_dir(target);
    s.append("/");
    s.append(wasm_name);
    s.append("_bg.wasm");
    s
}

/// Relative path of a target's type declarations: wasm_bindgen/{target}/{name}.d.ts
pub open spec fn spec_wasm_bindgen_dts(
    target: WasmBindgenTarget,
    wasm_name: Seq<char>,
) -> Seq<char> {
    spec_wasm_bindgen_dir(target) + "/"@ + wasm_name + ".d.ts"@
}

/// Path to a target's type declarations: wasm_bindgen/{target}/{name}.d.ts
pub fn wasm_bindgen_dts(target: WasmBindgenTarget, wasm_name: &str) -> (r: String)
    ensures
        r@ == spec_wasm_bindgen_dts(target, wasm_name@),
{
    let mut s = wasm_bindgen_dir(target);
    s.append("/");
    s.append(wasm_name);
    s.append(".d.ts");
    s
}

/// Relative path of an environment's ESM entrypoint: esm/{stem}.js
pub open spec fn spec_esm_entrypoint(env: Environment) -> Seq<char> {
    "esm/"@ + env.spec_file_stem() + ".js"@
}

/// Path to an ESM entrypoint: esm/{env}.js
pub fn esm_entrypoint(env: Environment) -> (r: String)
    ensures
        r@ == spec_esm_entrypoint(env),
{
    let mut s = String::from_str("esm/");
    s.append(env.file_stem());
    s.append(".js");
    s
}

/// Relative path of an environment's CJS entrypoint: cjs/{stem}.cjs
pub open spec fn spec_cjs_entrypoint(env: Environment) -> Seq<char> {
    "cjs/"@ + env.spec_file_stem() + ".cjs"@
}

/// Path to a CJS entrypoint: cjs/{env}.cjs
pub fn cjs_entrypoint(env: Environment) -> (r: String)
    ensures
        r@ == spec_cjs_entrypoint(env),
{
    let mut s = String::from_str("cjs/");
    s.append(env.file_stem());
    s.append(".cjs");
    s
}

/// Path to the IIFE bundle: iife/index.js
pub fn iife_bundle() -> (r: String)
    ensures
        r@ == "iife/index.js"@,
{
    String::from_str("iife/index.js")
}

/// Path to the base64 wasm module (ESM): esm/wasm-base64.js
pub fn wasm_base64_esm() -> (r: String)
    ensures
        r@ == "esm/wasm-base64.js"@,
{
    String::from_str("esm/wasm-base64.js")
}

/// Path to the base64 wasm module (CJS): cjs/wasm-base64.cjs
pub fn wasm_base64_cjs() -> (r: String)
    ensures
        r@ == "cjs/wasm-base64.cjs"@,
{
    String::from_str("cjs/wasm-base64.cjs")
}

/// Path to the type declarations: index.d.ts
pub fn types() -> (r: String)
    ensures
        r@ == "index.d.ts"@,
{
    String::from_str("index.d.ts")
}

/// Relative path of the standalone wasm binary: {package_name}.wasm
pub open spec fn spec_standalone_wasm(package_name: Seq<char>) -> Seq<char> {
    package_name + ".wasm"@
}

/// Path to the standalone wasm file: {package_name}.wasm
pub fn standalone_wasm(package_name: &str) -> (r: String)
    ensures
        r@ == spec_standalone_wasm(package_name@),
{
    let mut s = String::from_str(package_name);
    s.append(".wasm");
    s
}

} // verus!
