//! Post-processor: the two source-level transforms applied to the Web-style
//! binding output — the static-analysis-hazard patch and the binary-to-text
//! embedding — plus the CommonJS form of the embedded payload, extracted
//! from the ESM module.

use vstd::prelude::*;
use vstd::string::*;

use crate::errors::BuildError;
use crate::strutil::{replace_all, spec_replace_all};
use crate::targets::WasmBindgenTarget;

verus! {

// ============================================================================
// The static-analysis-hazard patch
// ============================================================================

/// The exact construct the patch looks for: the dynamic URL construction
/// over this module's binary. The module name is matched literally, never
/// as a wildcard, so unrelated URLs in the same file stay untouched.
pub open spec fn spec_hazard_needle(name: Seq<char>) -> Seq<char> {
    "new URL('"@ + name + "_bg.wasm', import.meta.url)"@
}

/// The same construct with the bundler suppression comment inserted
/// immediately before URL.
pub open spec fn spec_hazard_replacement(name: Seq<char>) -> Seq<char> {
    "new /* @vite-ignore */ URL('"@ + name + "_bg.wasm', import.meta.url)"@
}

/// The patched source: every occurrence of the construct replaced; a
/// source without the construct comes back unchanged.
pub open spec fn spec_vite_patched(content: Seq<char>, name: Seq<char>) -> Seq<char> {
    spec_replace_all(content, spec_hazard_needle(name), spec_hazard_replacement(name))
}

/// Applies the static-analysis-hazard patch to the given source: several
/// bundlers' static import scanners misread the dynamic URL construction
/// as an asset reference, so a suppression comment is inserted before
/// every occurrence. Absence of the construct is not an error.
pub fn apply_vite_fix(content: &str, wasm_name: &str) -> (r: String)
    ensures
        r@ == spec_vite_patched(content@, wasm_name@),
{
    let mut needle = String::from_str("new URL('");
    needle.append(wasm_name);
    needle.append("_bg.wasm', import.meta.url)");
    let mut repl = String::from_str("new /* @vite-ignore */ URL('");
    repl.append(wasm_name);
    repl.append("_bg.wasm', import.meta.url)");
    replace_all(content, needle.as_str(), repl.as_str())
}

// ============================================================================
// The format-marker rename
// ============================================================================

/// The rename the nodejs binding output needs: its primary file physically
/// holds CommonJS code but is generated under the ambiguous script
/// extension, so it moves to the CommonJS-specific extension; downstream
/// consumers then read the format off the filename. Returns the source and
/// destination paths; a missing source is not an error, later phases skip
/// the file.
pub fn nodejs_rename_paths(wasm_name: &str) -> (r: (String, String))
    ensures
        r.0@ == crate::paths::spec_wasm_bindgen_dir(WasmBindgenTarget::Nodejs) + "/"@ + wasm_name@
            + ".js"@,
        r.1@ == crate::paths::spec_wasm_bindgen_js(WasmBindgenTarget::Nodejs, wasm_name@),
{
    let mut js = crate::paths::wasm_bindgen_dir(WasmBindgenTarget::Nodejs);
    js.append("/");
    js.append(wasm_name);
    js.append(".js");
    let cjs = crate::paths::wasm_bindgen_js(WasmBindgenTarget::Nodejs, wasm_name);
    (js, cjs)
}

// ============================================================================
// The binary-to-text embedding
// ============================================================================

/// What base64's standard engine returns for the given bytes: the standard
/// alphabet, padded, without line wrapping.
pub uninterp spec fn b64_of(bytes: Seq<u8>) -> Seq<char>;

/// Relies on base64: Engine::encode with the STANDARD general-purpose
/// engine (standard alphabet, padded). The result is a function of the
/// bytes alone; its length is four characters per started three-byte
/// group, and the engine panics only when that length overflows usize.
#[verifier::external_body]
fn b64_encode(bytes: &[u8]) -> (r: String)
    requires
        4 * ((bytes@.len() + 2) / 3) <= usize::MAX,
    ensures
        r@ == b64_of(bytes@),
        r@.len() == 4 * ((bytes@.len() + 2) / 3),
{
    base64::Engine::encode(&base64::engine::general_purpose::STANDARD, bytes)
}

/// The ESM module exporting the embedded payload under the fixed symbol
/// name. The symbol is shared with the embed-as-base64 entrypoints;
/// renaming it is a breaking change.
pub open spec fn spec_base64_esm_module(b64: Seq<char>) -> Seq<char> {
    "export const wasmBase64 = \""@ + b64 + "\";\n"@
}

/// The CommonJS module exporting the same payload.
pub open spec fn spec_base64_cjs_module(b64: Seq<char>) -> Seq<char> {
    "module.exports.wasmBase64 = \""@ + b64 + "\";\n"@
}

/// Renders the ESM module text around an already-encoded payload.
pub fn base64_esm_module(b64: &str) -> (r: String)
    ensures
        r@ == spec_base64_esm_module(b64@),
{
    let mut s = String::from_str("export const wasmBase64 = \"");
    s.append(b64);
    s.append("\";\n");
    s
}

/// Encodes the compiled binary with standard base64 and renders the ESM
/// module exporting the string. This module is the sole source of truth
/// the embed-as-base64 initialization strategy depends on.
pub fn generate_base64_module(wasm_bytes: &[u8]) -> (r: String)
    requires
        4 * ((wasm_bytes@.len() + 2) / 3) <= usize::MAX,
    ensures
        r@ == spec_base64_esm_module(b64_of(wasm_bytes@)),
{
    let encoded = b64_encode(wasm_bytes);
    base64_esm_module(encoded.as_str())
}

// ============================================================================
// The CommonJS payload module, extracted from the ESM one
// ============================================================================

/// The first double quote at or after the given position.
pub open spec fn spec_find_quote(s: Seq<char>, from: int) -> Option<int>
    decreases s.len() - from,
{
    if from < 0 || from >= s.len() {
        None
    } else if s[from] == '"' {
        Some(from)
    } else {
        spec_find_quote(s, from + 1)
    }
}

/// The text between the first double quote and the second one (or the end
/// of the text, if there is no second); nothing when the text holds no
/// quote at all.
pub open spec fn spec_quoted_payload(s: Seq<char>) -> Option<Seq<char>> {
    match spec_find_quote(s, 0) {
        Some(i) => match spec_find_quote(s, i + 1) {
            Some(j) => Some(s.subrange(i + 1, j)),
            None => Some(s.subrange(i + 1, s.len() as int)),
        },
        None => None,
    }
}

fn find_quote(s: &str, from: usize) -> (r: Option<usize>)
    requires
        from <= s@.len(),
    ensures
        match r {
            Some(i) => from <= i < s@.len() && spec_find_quote(s@, from as int) == Some(i as int),
            None => spec_find_quote(s@, from as int) is None,
        },
{
    let n = s.unicode_len();
    let mut i: usize = from;
    while i < n
        invariant
            n == s@.len(),
            from <= i <= n,
            spec_find_quote(s@, from as int) == spec_find_quote(s@, i as int),
        decreases n - i,
    {
        if s.get_char(i) == '"' {
            return Some(i);
        }
        i = i + 1;
    }
    None
}

/// Extracts the base64 payload from the ESM payload module and renders the
/// CommonJS module exporting the same string. Fails exactly when the text
/// holds no quoted payload.
pub fn cjs_base64_from_esm(esm_content: &str) -> (r: Result<String, BuildError>)
    ensures
        (r is Ok) == (spec_quoted_payload(esm_content@) is Some),
        r matches Ok(c) ==> spec_quoted_payload(esm_content@) matches Some(p) && c@
            == spec_base64_cjs_module(p),
        r matches Err(e) ==> e == BuildError::MalformedBase64Module,
{
    match find_quote(esm_content, 0) {
        None => Err(BuildError::MalformedBase64Module),
        Some(i) => {
            let n = esm_content.unicode_len();
            let end = match find_quote(esm_content, i + 1) {
                Some(j) => j,
                None => n,
            };
            let payload = esm_content.substring_char(i + 1, end);
            let mut s = String::from_str("module.exports.wasmBase64 = \"");
            s.append(payload);
            s.append("\";\n");
            Ok(s)
        },
    }
}

} // verus!
