//! Declarative definitions of all build targets and their relationships.
//!
//! This module is the single source of truth for how packages are assembled.
//! Each environment defines which binding-generator target it consumes, how
//! its entrypoint initializes the WASM module, and which package-manifest
//! export conditions map to it.

use vstd::prelude::*;

verus! {

/// The binding-generator CLI targets we use.
#[derive(Debug, Clone, Copy, PartialEq, Eq, Hash, Structural)]
pub enum WasmBindgenTarget {
    /// `--target nodejs` - CommonJS output with fs-based wasm loading
    Nodejs,
    /// `--target web` - ESM output with manual initialization
    Web,
    /// `--target bundler` - ESM output expecting bundler to handle wasm
    Bundler,
}

impl WasmBindgenTarget {
    /// The string identifier handed to the binding generator.
    pub open spec fn spec_str(self) -> Seq<char> {
        match self {
            WasmBindgenTarget::Nodejs => "nodejs"@,
            WasmBindgenTarget::Web => "web"@,
            WasmBindgenTarget::Bundler => "bundler"@,
        }
    }

    pub fn as_str(&self) -> (r: &'static str)
        ensures
            r@ == self.spec_str(),
    {
        match self {
            WasmBindgenTarget::Nodejs => "nodejs",
            WasmBindgenTarget::Web => "web",
            WasmBindgenTarget::Bundler => "bundler",
        }
    }

    /// All targets that need to be built, in generation order.
    pub fn all() -> (r: Vec<WasmBindgenTarget>)
        ensures
            r@ == spec_all_targets(),
    {
        let mut v: Vec<WasmBindgenTarget> = Vec::new();
        v.push(WasmBindgenTarget::Nodejs);
        v.push(WasmBindgenTarget::Web);
        v.push(WasmBindgenTarget::Bundler);
        proof {
            assert(v@ =~= spec_all_targets());
        }
        v
    }

    /// Directory name under wasm_bindgen/
    pub fn dir_name(&self) -> (r: &'static str)
        ensures
            r@ == self.spec_str(),
    {
        self.as_str()
    }
}

pub open spec fn spec_all_targets() -> Seq<WasmBindgenTarget> {
    seq![WasmBindgenTarget::Nodejs, WasmBindgenTarget::Web, WasmBindgenTarget::Bundler]
}

/// How an entrypoint initializes the wasm module.
#[derive(Debug, Clone, Copy, PartialEq, Eq, Structural)]
pub enum InitStrategy {
    /// Auto-initializes via the binding-generator output (nodejs target)
    AutoNodejs,
    /// Auto-initializes by embedding wasm as base64
    Base64Embedded,
    /// Auto-initializes via synchronous wasm import (workerd)
    SyncWasmImport,
    /// Re-exports bundler target (bundler handles wasm loading)
    BundlerPassthrough,
    /// No initialization - user must call initSync manually
    Manual,
}

/// A runtime environment we support.
#[derive(Debug, Clone, Copy, PartialEq, Eq, Structural)]
pub enum Environment {
    /// Node.js (both ESM and CJS)
    Node,
    /// Browsers without a bundler (uses base64 embedded wasm)
    Web,
    /// Bundlers like Webpack, Vite, Rollup
    Bundler,
    /// Edge workers (workerd runtime)
    Workerd,
    /// Script tag usage (IIFE)
    Iife,
    /// Manual initialization (escape hatch)
    Slim,
}

/// All environments entrypoints are generated for; IIFE is handled specially
/// (bundled from Web), so it is not in this list.
pub open spec fn spec_all_environments() -> Seq<Environment> {
    seq![
        Environment::Node,
        Environment::Web,
        Environment::Bundler,
        Environment::Workerd,
        Environment::Slim,
    ]
}

impl Environment {
    /// All environments we generate entrypoints for
    pub fn all() -> (r: Vec<Environment>)
        ensures
            r@ == spec_all_environments(),
    {
        let mut v: Vec<Environment> = Vec::new();
        v.push(Environment::Node);
        v.push(Environment::Web);
        v.push(Environment::Bundler);
        v.push(Environment::Workerd);
        v.push(Environment::Slim);
        proof {
            assert(v@ =~= spec_all_environments());
        }
        v
    }

    /// The base filename for this environment's entrypoints (without extension)
    pub open spec fn spec_file_stem(self) -> Seq<char> {
        match self {
            Environment::Node => "node"@,
            Environment::Web => "web"@,
            Environment::Bundler => "bundler"@,
            Environment::Workerd => "workerd"@,
            Environment::Iife => "index"@,
            Environment::Slim => "slim"@,
        }
    }

    pub fn file_stem(&self) -> (r: &'static str)
        ensures
            r@ == self.spec_file_stem(),
    {
        match self {
            Environment::Node => "node",
            Environment::Web => "web",
            Environment::Bundler => "bundler",
            Environment::Workerd => "workerd",
            Environment::Iife => "index",  // in iife/ subdir
            Environment::Slim => "slim",
        }
    }

    /// Which binding-generator target this environment's entrypoint uses
    pub open spec fn spec_wasm_bindgen_target(self) -> WasmBindgenTarget {
        match self {
            Environment::Node => WasmBindgenTarget::Nodejs,
            Environment::Web => WasmBindgenTarget::Web,
            Environment::Bundler => WasmBindgenTarget::Bundler,
            Environment::Workerd => WasmBindgenTarget::Web,
            Environment::Iife => WasmBindgenTarget::Web,
            Environment::Slim => WasmBindgenTarget::Web,
        }
    }

    pub fn wasm_bindgen_target(&self) -> (r: WasmBindgenTarget)
        ensures
            r == self.spec_wasm_bindgen_target(),
    {
        match self {
            Environment::Node => WasmBindgenTarget::Nodejs,
            Environment::Web => WasmBindgenTarget::Web,
            Environment::Bundler => WasmBindgenTarget::Bundler,
            Environment::Workerd => WasmBindgenTarget::Web,
            Environment::Iife => WasmBindgenTarget::Web,  // bundled from the web entrypoint
            Environment::Slim => WasmBindgenTarget::Web,
        }
    }

    /// How this environment initializes the wasm module
    pub open spec fn spec_init_strategy(self) -> InitStrategy {
        match self {
            Environment::Node => InitStrategy::AutoNodejs,
            Environment::Web => InitStrategy::Base64Embedded,
            Environment::Bundler => InitStrategy::BundlerPassthrough,
            Environment::Workerd => InitStrategy::SyncWasmImport,
            Environment::Iife => InitStrategy::Base64Embedded,
            Environment::Slim => InitStrategy::Manual,
        }
    }

    pub fn init_strategy(&self) -> (r: InitStrategy)
        ensures
            r == self.spec_init_strategy(),
    {
        match self {
            Environment::Node => InitStrategy::AutoNodejs,
            Environment::Web => InitStrategy::Base64Embedded,
            Environment::Bundler => InitStrategy::BundlerPassthrough,
            Environment::Workerd => InitStrategy::SyncWasmImport,
            Environment::Iife => InitStrategy::Base64Embedded,
            Environment::Slim => InitStrategy::Manual,
        }
    }

    /// Whether this environment needs external bundling for its CommonJS form.
    ///
    /// Some environments (like Workerd) use a different environment for CJS
    /// (specified in the root export mapping), so they don't need their own
    /// bundle.
    pub open spec fn spec_needs_cjs_bundle(self) -> bool {
        match self {
            Environment::Node => false,
            Environment::Web => true,
            Environment::Slim => true,
            Environment::Bundler => false,
            Environment::Workerd => false,
            Environment::Iife => false,
        }
    }

    pub fn needs_cjs_bundle(&self) -> (r: bool)
        ensures
            r == self.spec_needs_cjs_bundle(),
    {
        match self {
            // Node can directly require the .cjs file
            Environment::Node => false,
            // Web and Slim use the web target (ESM) so need bundling for CJS
            Environment::Web | Environment::Slim => true,
            // Bundler CJS falls back to web.cjs (doesn't need its own bundle)
            Environment::Bundler => false,
            // Workerd CJS falls back to web.cjs (per the root export mapping)
            Environment::Workerd => false,
            // IIFE doesn't have a CJS variant
            Environment::Iife => false,
        }
    }
}

/// An export condition in the package manifest (e.g., "node", "browser", "import")
#[derive(Debug, Clone, Copy, PartialEq, Eq, Structural)]
pub enum ExportCondition {
    /// "node" - Node.js runtime
    Node,
    /// "browser" - Browser environment (typically via bundler)
    Browser,
    /// "workerd" - edge-worker runtime
    Workerd,
    /// "import" - ES Module import (fallback)
    Import,
    /// "require" - CommonJS require (fallback)
    Require,
}

impl ExportCondition {
    pub open spec fn spec_str(self) -> Seq<char> {
        match self {
            ExportCondition::Node => "node"@,
            ExportCondition::Browser => "browser"@,
            ExportCondition::Workerd => "workerd"@,
            ExportCondition::Import => "import"@,
            ExportCondition::Require => "require"@,
        }
    }

    pub fn as_str(&self) -> (r: &'static str)
        ensures
            r@ == self.spec_str(),
    {
        match self {
            ExportCondition::Node => "node",
            ExportCondition::Browser => "browser",
            ExportCondition::Workerd => "workerd",
            ExportCondition::Import => "import",
            ExportCondition::Require => "require",
        }
    }
}

/// Defines how a package-manifest export condition maps to environments.
#[derive(Debug, Clone, Copy, PartialEq, Eq, Structural)]
pub struct ExportMapping {
    /// The condition name in the manifest (e.g., "node", "browser")
    pub condition: ExportCondition,
    /// Environment used for ESM imports
    pub esm: Environment,
    /// Environment used for CJS requires
    pub cjs: Environment,
}

/// Mapping from export conditions to environments for the root "." export.
///
/// This defines which environment handles each condition. The order matters
/// for how manifest exports are structured: more specific conditions must
/// precede the generic import/require fallbacks.
pub open spec fn spec_root_export_mapping() -> Seq<ExportMapping> {
    seq![
        ExportMapping {
            condition: ExportCondition::Workerd,
            esm: Environment::Workerd,
            cjs: Environment::Web,
        },
        ExportMapping {
            condition: ExportCondition::Node,
            esm: Environment::Node,
            cjs: Environment::Node,
        },
        ExportMapping {
            condition: ExportCondition::Browser,
            esm: Environment::Bundler,
            cjs: Environment::Web,
        },
        ExportMapping {
            condition: ExportCondition::Import,
            esm: Environment::Web,
            cjs: Environment::Web,
        },
        ExportMapping {
            condition: ExportCondition::Require,
            esm: Environment::Web,
            cjs: Environment::Web,
        },
    ]
}

pub fn root_export_mapping() -> (r: Vec<ExportMapping>)
    ensures
        r@ == spec_root_export_mapping(),
{
    let mut v: Vec<ExportMapping> = Vec::new();
    // More specific conditions first
    v.push(ExportMapping {
        condition: ExportCondition::Workerd,
        esm: Environment::Workerd,
        cjs: Environment::Web,
    });
    v.push(ExportMapping {
        condition: ExportCondition::Node,
        esm: Environment::Node,
        cjs: Environment::Node,
    });
    v.push(ExportMapping {
        condition: ExportCondition::Browser,
        esm: Environment::Bundler,
        cjs: Environment::Web,
    });
    // Fallbacks (no specific condition, just import/require)
    v.push(ExportMapping {
        condition: ExportCondition::Import,
        esm: Environment::Web,
        cjs: Environment::Web,
    });
    v.push(ExportMapping {
        condition: ExportCondition::Require,
        esm: Environment::Web,
        cjs: Environment::Web,
    });
    proof {
        assert(v@ =~= spec_root_export_mapping());
    }
    v
}

/// No environment is left unresolvable: every environment's binding target
/// is among the targets the binding-generation phase builds, so its
/// entrypoint always has output to re-export.
pub proof fn lemma_every_environment_target_built()
    ensures
        forall|i: int|
            0 <= i < spec_all_environments().len() ==> spec_all_targets().contains(
                (#[trigger] spec_all_environments()[i]).spec_wasm_bindgen_target(),
            ),
{
    assert forall|i: int| 0 <= i < spec_all_environments().len() implies spec_all_targets()
        .contains((#[trigger] spec_all_environments()[i]).spec_wasm_bindgen_target()) by {
        let t = spec_all_environments()[i].spec_wasm_bindgen_target();
        match t {
            WasmBindgenTarget::Nodejs => assert(spec_all_targets()[0] == t),
            WasmBindgenTarget::Web => assert(spec_all_targets()[1] == t),
            WasmBindgenTarget::Bundler => assert(spec_all_targets()[2] == t),
        }
    }
}

/// No export-condition collision: each condition key appears in the root
/// export mapping exactly once, so the emitted conditional-export graph
/// never writes one key twice.
pub proof fn lemma_export_conditions_distinct()
    ensures
        forall|i: int, j: int|
            0 <= i < spec_root_export_mapping().len() && 0 <= j
                < spec_root_export_mapping().len() && i != j
                ==> (#[trigger] spec_root_export_mapping()[i]).condition
                != (#[trigger] spec_root_export_mapping()[j]).condition,
{
}

/// Every export condition's resolved ESM environment consumes the binding
/// target the mapping table declares: "browser" resolves to the bundler
/// target, "workerd" to the synchronous-binary-import strategy over the web
/// target, and "node" to the nodejs target.
pub proof fn lemma_root_mapping_targets()
    ensures
        forall|i: int|
            0 <= i < spec_root_export_mapping().len()
                && spec_root_export_mapping()[i].condition == ExportCondition::Browser
                ==> spec_root_export_mapping()[i].esm.spec_wasm_bindgen_target()
                == WasmBindgenTarget::Bundler,
        forall|i: int|
            0 <= i < spec_root_export_mapping().len()
                && spec_root_export_mapping()[i].condition == ExportCondition::Workerd ==> {
                &&& spec_root_export_mapping()[i].esm.spec_wasm_bindgen_target()
                    == WasmBindgenTarget::Web
                &&& spec_root_export_mapping()[i].esm.spec_init_strategy()
                    == InitStrategy::SyncWasmImport
            },
        forall|i: int|
            0 <= i < spec_root_export_mapping().len()
                && spec_root_export_mapping()[i].condition == ExportCondition::Node ==> {
                &&& spec_root_export_mapping()[i].esm.spec_wasm_bindgen_target()
                    == WasmBindgenTarget::Nodejs
                &&& spec_root_export_mapping()[i].cjs == Environment::Node
            },
{
}

} // verus!
