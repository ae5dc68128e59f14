//! Entrypoint content synthesis: the textual module source for each
//! environment's ESM entrypoint, driven by its initialization strategy, and
//! the CommonJS entrypoint for the one environment whose binding target
//! already produces CommonJS.

use vstd::prelude::*;
use vstd::string::*;

use crate::paths;
use crate::strutil::{lemma_contains_concat_l, lemma_contains_concat_r, spec_contains, spec_dash_to_underscore};
use crate::targets::{Environment, InitStrategy, WasmBindgenTarget};

verus! {

/// The ESM entrypoint source for an environment, as a function of its
/// initialization strategy and the normalized module name.
pub open spec fn spec_esm_source(env: Environment, name: Seq<char>) -> Seq<char> {
    match env.spec_init_strategy() {
        InitStrategy::AutoNodejs => "export * from '../"@ + paths::spec_wasm_bindgen_js(
            env.spec_wasm_bindgen_target(),
            name,
        ) + "';\n"@,
        InitStrategy::BundlerPassthrough => "export * from '../"@ + paths::spec_wasm_bindgen_js(
            env.spec_wasm_bindgen_target(),
            name,
        ) + "';\n"@,
        InitStrategy::Base64Embedded => "import { initSync } from '../wasm_bindgen/web/"@ + name
            + ".js';\nimport { wasmBase64 } from './wasm-base64.js';\nconst bytes = Uint8Array.from(atob(wasmBase64), c => c.charCodeAt(0));\ninitSync(bytes);\nexport * from '../wasm_bindgen/web/"@
            + name + ".js';\n"@,
        InitStrategy::SyncWasmImport => "import * as exports from '../wasm_bindgen/web/"@ + name
            + ".js';\nimport { initSync } from '../wasm_bindgen/web/"@ + name
            + ".js';\nimport wasmModule from '../wasm_bindgen/web/"@ + name
            + "_bg.wasm';\ninitSync({ module: wasmModule });\nexport * from '../wasm_bindgen/web/"@
            + name + ".js';\n"@,
        InitStrategy::Manual => "export * from '../wasm_bindgen/web/"@ + name
            + ".js';\nexport { default } from '../wasm_bindgen/web/"@ + name + ".js';\n"@,
    }
}

/// Generates the JavaScript content for an ESM entrypoint.
pub fn generate_esm_entrypoint(env: Environment, wasm_name: &str) -> (r: String)
    ensures
        r@ == spec_esm_source(env, wasm_name@),
{
    let target = env.wasm_bindgen_target();

    match env.init_strategy() {
        InitStrategy::AutoNodejs | InitStrategy::BundlerPassthrough => {
            // Re-export from the binding output (nodejs auto-initializes;
            // for the bundler target the bundler handles wasm loading)
            let path = paths::wasm_bindgen_js(target, wasm_name);
            let mut s = String::from_str("export * from '../");
            s.append(path.as_str());
            s.append("';\n");
            s
        },
        InitStrategy::Base64Embedded => {
            // Import base64, decode, init, then re-export
            let mut s = String::from_str("import { initSync } from '../wasm_bindgen/web/");
            s.append(wasm_name);
            s.append(
                ".js';\nimport { wasmBase64 } from './wasm-base64.js';\nconst bytes = Uint8Array.from(atob(wasmBase64), c => c.charCodeAt(0));\ninitSync(bytes);\nexport * from '../wasm_bindgen/web/",
            );
            s.append(wasm_name);
            s.append(".js';\n");
            s
        },
        InitStrategy::SyncWasmImport => {
            // Synchronously import the wasm module (edge workers)
            let mut s = String::from_str("import * as exports from '../wasm_bindgen/web/");
            s.append(wasm_name);
            s.append(".js';\nimport { initSync } from '../wasm_bindgen/web/");
            s.append(wasm_name);
            s.append(".js';\nimport wasmModule from '../wasm_bindgen/web/");
            s.append(wasm_name);
            s.append(
                "_bg.wasm';\ninitSync({ module: wasmModule });\nexport * from '../wasm_bindgen/web/",
            );
            s.append(wasm_name);
            s.append(".js';\n");
            s
        },
        InitStrategy::Manual => {
            // Re-export without initialization (user calls initSync)
            let mut s = String::from_str("export * from '../wasm_bindgen/web/");
            s.append(wasm_name);
            s.append(".js';\nexport { default } from '../wasm_bindgen/web/");
            s.append(wasm_name);
            s.append(".js';\n");
            s
        },
    }
}

/// The CJS entrypoint source for the Node environment.
pub open spec fn spec_cjs_source(name: Seq<char>) -> Seq<char> {
    "module.exports = require('../"@ + paths::spec_wasm_bindgen_js(
        WasmBindgenTarget::Nodejs,
        name,
    ) + "');\n"@
}

/// Generates the JavaScript content for a CJS entrypoint, for the one
/// environment whose binding target natively produces CommonJS; every other
/// environment returns None and relies on external bundling of its ESM
/// entrypoint.
pub fn generate_cjs_entrypoint(env: Environment, wasm_name: &str) -> (r: Option<String>)
    ensures
        (env == Environment::Node) == (r is Some),
        r matches Some(c) ==> c@ == spec_cjs_source(wasm_name@),
{
    // Only Node has a simple CJS entrypoint; others are bundled from ESM
    if env == Environment::Node {
        let path = paths::wasm_bindgen_js(WasmBindgenTarget::Nodejs, wasm_name);
        let mut s = String::from_str("module.exports = require('../");
        s.append(path.as_str());
        s.append("');\n");
        Some(s)
    } else {
        None
    }
}

/// Every environment's synthesized ESM entrypoint source is non-empty.
pub proof fn lemma_esm_source_nonempty(env: Environment, name: Seq<char>)
    ensures
        spec_esm_source(env, name).len() > 0,
{
    reveal_strlit("export * from '../");
    reveal_strlit("import { initSync } from '../wasm_bindgen/web/");
    reveal_strlit("import * as exports from '../wasm_bindgen/web/");
    reveal_strlit("export * from '../wasm_bindgen/web/");
}

/// The synthesized ESM source carries the markers its initialization
/// strategy requires: the embed-as-base64 strategy's output both names the
/// synchronous initializer and refers to the base64 payload module; the
/// synchronous-binary-import strategy's output names the initializer; the
/// manual strategy's output re-exports the public surface and the default
/// initializer; and the auto-load and bundler-delegated strategies' output
/// holds the re-export statement.
pub proof fn lemma_esm_source_markers(env: Environment, name: Seq<char>)
    ensures
        env.spec_init_strategy() == InitStrategy::Base64Embedded ==> spec_contains(
            spec_esm_source(env, name),
            "initSync"@,
        ) && spec_contains(spec_esm_source(env, name), "wasm-base64"@),
        env.spec_init_strategy() == InitStrategy::SyncWasmImport ==> spec_contains(
            spec_esm_source(env, name),
            "initSync"@,
        ),
        env.spec_init_strategy() == InitStrategy::Manual ==> spec_contains(
            spec_esm_source(env, name),
            "export * from"@,
        ) && spec_contains(spec_esm_source(env, name), "export { default }"@),
        env.spec_init_strategy() == InitStrategy::AutoNodejs || env.spec_init_strategy()
            == InitStrategy::BundlerPassthrough ==> spec_contains(
            spec_esm_source(env, name),
            "export * from"@,
        ),
{
    reveal_strlit("initSync");
    reveal_strlit("wasm-base64");
    reveal_strlit("export * from");
    reveal_strlit("export { default }");
    if env.spec_init_strategy() == InitStrategy::Base64Embedded {
        let p1 = "import { initSync } from '../wasm_bindgen/web/"@;
        let p2 =
            ".js';\nimport { wasmBase64 } from './wasm-base64.js';\nconst bytes = Uint8Array.from(atob(wasmBase64), c => c.charCodeAt(0));\ninitSync(bytes);\nexport * from '../wasm_bindgen/web/"@;
        let p3 = ".js';\n"@;
        reveal_strlit("import { initSync } from '../wasm_bindgen/web/");
        reveal_strlit(
            ".js';\nimport { wasmBase64 } from './wasm-base64.js';\nconst bytes = Uint8Array.from(atob(wasmBase64), c => c.charCodeAt(0));\ninitSync(bytes);\nexport * from '../wasm_bindgen/web/",
        );
        assert(spec_esm_source(env, name) == p1 + name + p2 + name + p3);

        assert(p1.subrange(9, 9 + "initSync"@.len() as int) =~= "initSync"@);
        assert(spec_contains(p1, "initSync"@));
        lemma_contains_concat_l(p1, name, "initSync"@);
        lemma_contains_concat_l(p1 + name, p2, "initSync"@);
        lemma_contains_concat_l(p1 + name + p2, name, "initSync"@);
        lemma_contains_concat_l(p1 + name + p2 + name, p3, "initSync"@);

        assert(p2.subrange(36, 36 + "wasm-base64"@.len() as int) =~= "wasm-base64"@);
        assert(spec_contains(p2, "wasm-base64"@));
        lemma_contains_concat_r(p1 + name, p2, "wasm-base64"@);
        lemma_contains_concat_l(p1 + name + p2, name, "wasm-base64"@);
        lemma_contains_concat_l(p1 + name + p2 + name, p3, "wasm-base64"@);
    }
    if env.spec_init_strategy() == InitStrategy::SyncWasmImport {
        let q1 = "import * as exports from '../wasm_bindgen/web/"@;
        let q2 = ".js';\nimport { initSync } from '../wasm_bindgen/web/"@;
        let q3 = ".js';\nimport wasmModule from '../wasm_bindgen/web/"@;
        let q4 = "_bg.wasm';\ninitSync({ module: wasmModule });\nexport * from '../wasm_bindgen/web/"@;
        let q5 = ".js';\n"@;
        reveal_strlit(".js';\nimport { initSync } from '../wasm_bindgen/web/");
        assert(spec_esm_source(env, name) == q1 + name + q2 + name + q3 + name + q4 + name + q5);

        assert(q2.subrange(15, 15 + "initSync"@.len() as int) =~= "initSync"@);
        assert(spec_contains(q2, "initSync"@));
        lemma_contains_concat_r(q1 + name, q2, "initSync"@);
        lemma_contains_concat_l(q1 + name + q2, name, "initSync"@);
        lemma_contains_concat_l(q1 + name + q2 + name, q3, "initSync"@);
        lemma_contains_concat_l(q1 + name + q2 + name + q3, name, "initSync"@);
        lemma_contains_concat_l(q1 + name + q2 + name + q3 + name, q4, "initSync"@);
        lemma_contains_concat_l(q1 + name + q2 + name + q3 + name + q4, name, "initSync"@);
        lemma_contains_concat_l(q1 + name + q2 + name + q3 + name + q4 + name, q5, "initSync"@);
    }
    if env.spec_init_strategy() == InitStrategy::Manual {
        let m1 = "export * from '../wasm_bindgen/web/"@;
        let m2 = ".js';\nexport { default } from '../wasm_bindgen/web/"@;
        let m3 = ".js';\n"@;
        reveal_strlit("export * from '../wasm_bindgen/web/");
        reveal_strlit(".js';\nexport { default } from '../wasm_bindgen/web/");
        assert(spec_esm_source(env, name) == m1 + name + m2 + name + m3);

        assert(m1.subrange(0, 0 + "export * from"@.len() as int) =~= "export * from"@);
        assert(spec_contains(m1, "export * from"@));
        lemma_contains_concat_l(m1, name, "export * from"@);
        lemma_contains_concat_l(m1 + name, m2, "export * from"@);
        lemma_contains_concat_l(m1 + name + m2, name, "export * from"@);
        lemma_contains_concat_l(m1 + name + m2 + name, m3, "export * from"@);

        assert(m2.subrange(6, 6 + "export { default }"@.len() as int) =~= "export { default }"@);
        assert(spec_contains(m2, "export { default }"@));
        lemma_contains_concat_r(m1 + name, m2, "export { default }"@);
        lemma_contains_concat_l(m1 + name + m2, name, "export { default }"@);
        lemma_contains_concat_l(m1 + name + m2 + name, m3, "export { default }"@);
    }
    if env.spec_init_strategy() == InitStrategy::AutoNodejs || env.spec_init_strategy()
        == InitStrategy::BundlerPassthrough {
        let a1 = "export * from '../"@;
        let path = crate::paths::spec_wasm_bindgen_js(env.spec_wasm_bindgen_target(), name);
        let a2 = "';\n"@;
        reveal_strlit("export * from '../");
        assert(spec_esm_source(env, name) == a1 + path + a2);

        assert(a1.subrange(0, 0 + "export * from"@.len() as int) =~= "export * from"@);
        assert(spec_contains(a1, "export * from"@));
        lemma_contains_concat_l(a1, path, "export * from"@);
        lemma_contains_concat_l(a1 + path, a2, "export * from"@);
    }
}

/// One file the entrypoint generator plans to write: a path relative to the
/// output directory, and its full content.
pub struct PlannedFile {
    pub path: String,
    pub content: String,
}

/// The full write plan for entrypoint generation: one ESM entrypoint per
/// environment, in declaration order, then the one directly synthesized CJS
/// entrypoint. The module name is the crate name with hyphens normalized to
/// underscores.
pub fn entrypoint_plan(crate_name: &str) -> (r: Vec<PlannedFile>)
    ensures
        r@.len() == crate::targets::spec_all_environments().len() + 1,
        forall|i: int|
            0 <= i < crate::targets::spec_all_environments().len() ==> {
                &&& (#[trigger] r@[i]).path@ == paths::spec_esm_entrypoint(
                    crate::targets::spec_all_environments()[i],
                )
                &&& r@[i].content@ == spec_esm_source(
                    crate::targets::spec_all_environments()[i],
                    spec_dash_to_underscore(crate_name@),
                )
            },
        r@[crate::targets::spec_all_environments().len() as int].path@
            == paths::spec_cjs_entrypoint(Environment::Node),
        r@[crate::targets::spec_all_environments().len() as int].content@ == spec_cjs_source(
            spec_dash_to_underscore(crate_name@),
        ),
{
    let wasm_name = crate::strutil::dash_to_underscore(crate_name);
    let envs = Environment::all();
    let mut plan: Vec<PlannedFile> = Vec::new();
    let mut i: usize = 0;
    while i < envs.len()
        invariant
            envs@ == crate::targets::spec_all_environments(),
            i <= envs@.len(),
            wasm_name@ == spec_dash_to_underscore(crate_name@),
            plan@.len() == i,
            forall|j: int|
                0 <= j < i ==> {
                    &&& (#[trigger] plan@[j]).path@ == paths::spec_esm_entrypoint(envs@[j])
                    &&& plan@[j].content@ == spec_esm_source(envs@[j], wasm_name@)
                },
        decreases envs@.len() - i,
    {
        let env = envs[i];
        plan.push(
            PlannedFile {
                path: paths::esm_entrypoint(env),
                content: generate_esm_entrypoint(env, wasm_name.as_str()),
            },
        );
        i = i + 1;
    }
    // The one environment with a directly synthesized CJS entrypoint
    match generate_cjs_entrypoint(Environment::Node, wasm_name.as_str()) {
        Some(content) => {
            plan.push(PlannedFile { path: paths::cjs_entrypoint(Environment::Node), content });
        },
        None => {
            // generate_cjs_entrypoint returns Some for the Node environment
            proof {
                assert(false);
            }
        },
    }
    plan
}

} // verus!
