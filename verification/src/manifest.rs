//! Manifest synthesizer: merges the generated artifact paths into the
//! user-authored package manifest — module-type declaration, legacy
//! main/module/types fields, the file-inclusion list, and the conditional
//! export graph — without discarding or reordering entries it does not own.

use vstd::prelude::*;
use vstd::string::*;

use crate::errors::BuildError;
use crate::json::{
    entries_get, entries_set, entries_vw, jv, jv_list, jv_obj_get, jv_obj_set, lemma_entries_vw,
    lemma_get_set_other, lemma_get_set_same, lemma_jv_list, lemma_set_present_identity, Json,
    JsonV,
};
use crate::paths;
use crate::strutil::{
    spec_starts_with, spec_underscore_to_dash, starts_with, str_eq, underscore_to_dash,
};
use crate::targets::{
    root_export_mapping, spec_root_export_mapping, Environment, ExportCondition, ExportMapping,
};

verus! {

/// A generated path as it appears in the manifest: prefixed by ./ and the
/// output directory.
pub open spec fn spec_prefixed(dist: Seq<char>, path: Seq<char>) -> Seq<char> {
    "./"@ + dist + "/"@ + path
}

fn prefixed(dist: &str, path: &str) -> (r: String)
    ensures
        r@ == spec_prefixed(dist@, path@),
{
    let mut s = String::from_str("./");
    s.append(dist);
    s.append("/");
    s.append(path);
    s
}

// ============================================================================
// The file-inclusion list
// ============================================================================

/// The string entries of an array value, in order, everything else dropped.
pub open spec fn jv_extract_strings(items: Seq<JsonV>) -> Seq<Seq<char>>
    decreases items.len(),
{
    if items.len() == 0 {
        Seq::empty()
    } else {
        (match items[0] {
            JsonV::Str(s) => seq![s],
            _ => Seq::empty(),
        }) + jv_extract_strings(items.drop_first())
    }
}

proof fn lemma_extract_strings_push(items: Seq<JsonV>, x: JsonV)
    ensures
        jv_extract_strings(items.push(x)) == jv_extract_strings(items) + (match x {
            JsonV::Str(s) => seq![s],
            _ => Seq::<Seq<char>>::empty(),
        }),
    decreases items.len(),
{
    let head: Seq<Seq<char>> = match items.push(x)[0] {
        JsonV::Str(s) => seq![s],
        _ => Seq::empty(),
    };
    if items.len() == 0 {
        assert(items.push(x).drop_first() =~= items);
        assert(jv_extract_strings(items.push(x)) =~= jv_extract_strings(items) + (match x {
            JsonV::Str(s) => seq![s],
            _ => Seq::<Seq<char>>::empty(),
        }));
    } else {
        assert(items.push(x).drop_first() =~= items.drop_first().push(x));
        lemma_extract_strings_push(items.drop_first(), x);
        assert(head + (jv_extract_strings(items.drop_first()) + (match x {
            JsonV::Str(s) => seq![s],
            _ => Seq::<Seq<char>>::empty(),
        })) =~= (head + jv_extract_strings(items.drop_first())) + (match x {
            JsonV::Str(s) => seq![s],
            _ => Seq::<Seq<char>>::empty(),
        }));
    }
}

/// Strings mapped back to JSON string values.
pub open spec fn strs_to_jv(strs: Seq<Seq<char>>) -> Seq<JsonV> {
    strs.map_values(|s: Seq<char>| JsonV::Str(s))
}

/// A file list covers the output directory when it lists the directory
/// itself or any subpath of it.
pub open spec fn spec_files_covers(files: Seq<Seq<char>>, dist: Seq<char>) -> bool {
    exists|i: int|
        0 <= i < files.len() && ((#[trigger] files[i]) == dist || spec_starts_with(
            files[i],
            dist + "/"@,
        ))
}

/// The merged file list: unchanged when it already covers the output
/// directory, else with the directory appended once at the end.
pub open spec fn spec_merged_files(strs: Seq<Seq<char>>, dist: Seq<char>) -> Seq<Seq<char>> {
    if spec_files_covers(strs, dist) {
        strs
    } else {
        strs.push(dist)
    }
}

/// The new value of the manifest's file-inclusion list, from its old value:
/// its string entries, merged with the output directory.
pub open spec fn spec_files_value(old_val: Option<JsonV>, dist: Seq<char>) -> Seq<Seq<char>> {
    spec_merged_files(
        match old_val {
            Some(JsonV::Arr(items)) => jv_extract_strings(items),
            _ => Seq::empty(),
        },
        dist,
    )
}

/// The file-inclusion merge never duplicates: a list that already covers
/// the output directory — as the directory itself or one of its subpaths —
/// is kept unchanged; otherwise exactly the directory is appended; and the
/// merged list always covers the directory.
pub proof fn lemma_files_merge_no_duplicate(strs: Seq<Seq<char>>, dist: Seq<char>)
    ensures
        spec_files_covers(strs, dist) ==> spec_merged_files(strs, dist) == strs,
        !spec_files_covers(strs, dist) ==> spec_merged_files(strs, dist) == strs.push(dist),
        spec_files_covers(spec_merged_files(strs, dist), dist),
{
    if !spec_files_covers(strs, dist) {
        let merged = strs.push(dist);
        assert(merged[strs.len() as int] == dist);
    }
}

proof fn lemma_covers_push(files: Seq<Seq<char>>, x: Seq<char>, dist: Seq<char>)
    ensures
        spec_files_covers(files.push(x), dist) == (spec_files_covers(files, dist) || x == dist
            || spec_starts_with(x, dist + "/"@)),
{
    let grown = files.push(x);
    if spec_files_covers(files, dist) {
        let i = choose|i: int|
            0 <= i < files.len() && ((#[trigger] files[i]) == dist || spec_starts_with(
                files[i],
                dist + "/"@,
            ));
        assert(grown[i] == files[i]);
    }
    if x == dist || spec_starts_with(x, dist + "/"@) {
        assert(grown[files.len() as int] == x);
    }
    if spec_files_covers(grown, dist) && !(x == dist || spec_starts_with(x, dist + "/"@)) {
        let i = choose|i: int|
            0 <= i < grown.len() && ((#[trigger] grown[i]) == dist || spec_starts_with(
                grown[i],
                dist + "/"@,
            ));
        assert(i < files.len() && grown[i] == files[i]);
    }
}

/// Updates the manifest's file-inclusion list in place: keeps its string
/// entries, and appends the output directory unless the list already covers
/// it.
fn update_files_array(entries: &mut Vec<(String, Json)>, dist: &str)
    ensures
        entries_vw(final(entries)@) == jv_obj_set(
            entries_vw(old(entries)@),
            "files"@,
            JsonV::Arr(
                strs_to_jv(
                    spec_files_value(jv_obj_get(entries_vw(old(entries)@), "files"@), dist@),
                ),
            ),
        ),
{
    let mut dist_slash = String::from_str(dist);
    dist_slash.append("/");

    let mut strs: Vec<String> = Vec::new();
    let mut covers = false;
    let ghost old_strs = match jv_obj_get(entries_vw(entries@), "files"@) {
        Some(JsonV::Arr(items)) => jv_extract_strings(items),
        _ => Seq::<Seq<char>>::empty(),
    };

    match entries_get(entries, "files") {
        Some(Json::Arr(items)) => {
            let n = items.len();
            let mut k: usize = 0;
            proof {
                assert(jv_list(items@).subrange(0, 0) =~= Seq::<JsonV>::empty());
                assert(jv_extract_strings(Seq::<JsonV>::empty()) =~= Seq::<Seq<char>>::empty());
            }
            while k < n
                invariant
                    n == items@.len(),
                    k <= n,
                    old_strs == jv_extract_strings(jv_list(items@)),
                    strs.deep_view() == jv_extract_strings(jv_list(items@).subrange(0, k as int)),
                    covers == spec_files_covers(
                        jv_extract_strings(jv_list(items@).subrange(0, k as int)),
                        dist@,
                    ),
                    dist_slash@ == dist@ + "/"@,
                decreases n - k,
            {
                proof {
                    lemma_jv_list(items@);
                }
                let ghost prefix = jv_list(items@).subrange(0, k as int);
                let ghost prefix1 = jv_list(items@).subrange(0, k as int + 1);
                match &items[k] {
                    Json::Str(s) => {
                        if str_eq(s.as_str(), dist) || starts_with(s.as_str(), dist_slash.as_str())
                            {
                            covers = true;
                        }
                        strs.push(s.clone());
                        proof {
                            assert(prefix1 =~= prefix.push(jv(items@[k as int])));
                            lemma_extract_strings_push(prefix, jv(items@[k as int]));
                            assert(jv_extract_strings(prefix) + seq![s@] =~= jv_extract_strings(
                                prefix,
                            ).push(s@));
                            lemma_covers_push(jv_extract_strings(prefix), s@, dist@);
                            assert(strs.deep_view() =~= jv_extract_strings(prefix1));
                        }
                    },
                    _ => {
                        proof {
                            assert(prefix1 =~= prefix.push(jv(items@[k as int])));
                            lemma_extract_strings_push(prefix, jv(items@[k as int]));
                            assert(jv_extract_strings(prefix1) =~= jv_extract_strings(prefix));
                        }
                    },
                }
                k = k + 1;
            }
            proof {
                lemma_jv_list(items@);
                assert(jv_list(items@).subrange(0, n as int) =~= jv_list(items@));
            }
        },
        _ => {
            proof {
                assert(strs.deep_view() =~= Seq::<Seq<char>>::empty());
            }
        },
    }
    proof {
        assert(strs.deep_view() == old_strs);
        assert(covers == spec_files_covers(old_strs, dist@));
    }

    if !covers {
        strs.push(String::from_str(dist));
        proof {
            assert(strs.deep_view() =~= old_strs.push(dist@));
        }
    }
    proof {
        assert(strs.deep_view() == spec_merged_files(old_strs, dist@));
    }

    // Rebuild the JSON array from the merged strings
    let m = strs.len();
    let mut arr: Vec<Json> = Vec::new();
    let mut k: usize = 0;
    while k < m
        invariant
            m == strs@.len(),
            k <= m,
            jv_list(arr@) == strs_to_jv(strs.deep_view()).subrange(0, k as int),
        decreases m - k,
    {
        let ghost arr0 = arr@;
        arr.push(Json::Str(strs[k].clone()));
        proof {
            lemma_jv_list(arr0);
            lemma_jv_list(arr@);
            assert(jv_list(arr@) =~= strs_to_jv(strs.deep_view()).subrange(0, k as int + 1));
        }
        k = k + 1;
    }
    proof {
        assert(strs_to_jv(strs.deep_view()).subrange(0, m as int) =~= strs_to_jv(
            strs.deep_view(),
        ));
    }
    entries_set(entries, "files", Json::Arr(arr));
}

// ============================================================================
// The conditional export graph
// ============================================================================

fn import_require_obj(import_path: String, require_path: String) -> (r: Json)
    ensures
        jv(r) == JsonV::Obj(
            seq![
                ("import"@, JsonV::Str(import_path@)),
                ("require"@, JsonV::Str(require_path@)),
            ],
        ),
{
    let mut v: Vec<(String, Json)> = Vec::new();
    v.push((String::from_str("import"), Json::Str(import_path)));
    v.push((String::from_str("require"), Json::Str(require_path)));
    proof {
        lemma_entries_vw(v@);
        assert(entries_vw(v@) =~= seq![
            ("import"@, JsonV::Str(import_path@)),
            ("require"@, JsonV::Str(require_path@)),
        ]);
    }
    Json::Obj(v)
}

/// The manifest entry one export mapping contributes to the root export: a
/// single path for the conditions that only ever resolve under import or
/// only under require, and a nested import/require object for every
/// runtime-specific condition.
pub open spec fn spec_condition_entry(m: ExportMapping, dist: Seq<char>) -> (Seq<char>, JsonV) {
    match m.condition {
        ExportCondition::Import => (
            "import"@,
            JsonV::Str(spec_prefixed(dist, paths::spec_esm_entrypoint(m.esm))),
        ),
        ExportCondition::Require => (
            "require"@,
            JsonV::Str(spec_prefixed(dist, paths::spec_cjs_entrypoint(m.cjs))),
        ),
        _ => (
            m.condition.spec_str(),
            JsonV::Obj(
                seq![
                    ("import"@, JsonV::Str(spec_prefixed(dist, paths::spec_esm_entrypoint(m.esm)))),
                    (
                        "require"@,
                        JsonV::Str(spec_prefixed(dist, paths::spec_cjs_entrypoint(m.cjs))),
                    ),
                ],
            ),
        ),
    }
}

fn condition_entry(m: &ExportMapping, dist: &str) -> (r: (String, Json))
    ensures
        (r.0@, jv(r.1)) == spec_condition_entry(*m, dist@),
{
    let esm_path = prefixed(dist, paths::esm_entrypoint(m.esm).as_str());
    let cjs_path = prefixed(dist, paths::cjs_entrypoint(m.cjs).as_str());
    match m.condition {
        ExportCondition::Import => (String::from_str("import"), Json::Str(esm_path)),
        ExportCondition::Require => (String::from_str("require"), Json::Str(cjs_path)),
        ExportCondition::Node | ExportCondition::Browser | ExportCondition::Workerd => (
            String::from_str(m.condition.as_str()),
            import_require_obj(esm_path, cjs_path),
        ),
    }
}

/// The entries every export mapping contributes, in declaration order.
pub open spec fn spec_mapped_entries(dist: Seq<char>) -> Seq<(Seq<char>, JsonV)> {
    spec_root_export_mapping().map_values(|m: ExportMapping| spec_condition_entry(m, dist))
}

/// The root "." export: the type-declaration path first, so that type
/// resolution is unconditional, then one entry per export mapping in
/// declaration order.
pub open spec fn spec_root_export(dist: Seq<char>) -> Seq<(Seq<char>, JsonV)> {
    seq![("types"@, JsonV::Str(spec_prefixed(dist, "index.d.ts"@)))] + spec_mapped_entries(dist)
}

/// No export-condition collision: the emitted root export object writes
/// each key once — the type-declaration key and the five condition keys
/// are pairwise distinct.
pub proof fn lemma_root_export_keys_distinct(dist: Seq<char>)
    ensures
        forall|i: int, j: int|
            0 <= i < spec_root_export(dist).len() && 0 <= j < spec_root_export(dist).len() && i
                != j ==> (#[trigger] spec_root_export(dist)[i]).0 != (#[trigger] spec_root_export(
                dist,
            )[j]).0,
{
    reveal_strlit("types");
    reveal_strlit("workerd");
    reveal_strlit("node");
    reveal_strlit("browser");
    reveal_strlit("import");
    reveal_strlit("require");
    assert("types"@.len() == 5 && "workerd"@.len() == 7 && "node"@.len() == 4 && "browser"@.len()
        == 7 && "import"@.len() == 6 && "require"@.len() == 7);
    assert("workerd"@[0] == 'w' && "require"@[0] == 'r' && "browser"@[0] == 'b' && "import"@[0]
        == 'i');
    let keys = seq!["types"@, "workerd"@, "node"@, "browser"@, "import"@, "require"@];
    assert forall|k: int| 0 <= k < spec_root_export(dist).len() implies (
    #[trigger] spec_root_export(dist)[k]).0 == keys[k] by {
        assert(spec_root_export(dist).len() == 6);
        if k >= 1 {
            assert(spec_root_export(dist)[k] == spec_mapped_entries(dist)[k - 1]);
        }
    }
    assert(forall|i: int, j: int|
        0 <= i < 6 && 0 <= j < 6 && i != j ==> #[trigger] keys[i] != #[trigger] keys[j]);
}

/// The whole exports value: the root export, the manual-initialization
/// subpath, the raw-binary subpath, the base64-module subpath, and the
/// global-script subpath.
pub open spec fn spec_exports(dist: Seq<char>, package_name: Seq<char>) -> JsonV {
    JsonV::Obj(
        seq![
            ("."@, JsonV::Obj(spec_root_export(dist))),
            (
                "./slim"@,
                JsonV::Obj(
                    seq![
                        ("types"@, JsonV::Str(spec_prefixed(dist, "index.d.ts"@))),
                        (
                            "import"@,
                            JsonV::Str(
                                spec_prefixed(
                                    dist,
                                    paths::spec_esm_entrypoint(Environment::Slim),
                                ),
                            ),
                        ),
                        (
                            "require"@,
                            JsonV::Str(
                                spec_prefixed(
                                    dist,
                                    paths::spec_cjs_entrypoint(Environment::Slim),
                                ),
                            ),
                        ),
                    ],
                ),
            ),
            (
                "./wasm"@,
                JsonV::Str(spec_prefixed(dist, paths::spec_standalone_wasm(package_name))),
            ),
            (
                "./wasm-base64"@,
                JsonV::Obj(
                    seq![
                        ("import"@, JsonV::Str(spec_prefixed(dist, "esm/wasm-base64.js"@))),
                        ("require"@, JsonV::Str(spec_prefixed(dist, "cjs/wasm-base64.cjs"@))),
                    ],
                ),
            ),
            ("./iife"@, JsonV::Str(spec_prefixed(dist, "iife/index.js"@))),
        ],
    )
}

/// Builds the exports value for the manifest from the declarative root
/// export mapping.
pub fn build_exports_map(dist: &str, package_name: &str) -> (r: Json)
    ensures
        jv(r) == spec_exports(dist@, package_name@),
{
    // The root "." export with conditional resolution; types first
    let mut root: Vec<(String, Json)> = Vec::new();
    root.push((String::from_str("types"), Json::Str(prefixed(dist, paths::types().as_str()))));
    proof {
        lemma_entries_vw(root@);
        assert(entries_vw(root@) =~= seq![("types"@, JsonV::Str(spec_prefixed(dist@, "index.d.ts"@)))]
            + spec_mapped_entries(dist@).subrange(0, 0));
    }
    let mapping = root_export_mapping();
    let mut i: usize = 0;
    while i < mapping.len()
        invariant
            mapping@ == spec_root_export_mapping(),
            i <= mapping@.len(),
            dist@ == dist@,
            entries_vw(root@) == seq![("types"@, JsonV::Str(spec_prefixed(dist@, "index.d.ts"@)))]
                + spec_mapped_entries(dist@).subrange(0, i as int),
        decreases mapping@.len() - i,
    {
        let e = condition_entry(&mapping[i], dist);
        let ghost root0 = root@;
        root.push(e);
        proof {
            lemma_entries_vw(root0);
            lemma_entries_vw(root@);
            let entry = spec_condition_entry(spec_root_export_mapping()[i as int], dist@);
            assert(entries_vw(root@) =~= entries_vw(root0).push(entry));
            assert(seq![("types"@, JsonV::Str(spec_prefixed(dist@, "index.d.ts"@)))]
                + spec_mapped_entries(dist@).subrange(0, i as int + 1) =~= (seq![
                ("types"@, JsonV::Str(spec_prefixed(dist@, "index.d.ts"@))),
            ] + spec_mapped_entries(dist@).subrange(0, i as int)).push(entry));
        }
        i = i + 1;
    }
    proof {
        let mapped = spec_mapped_entries(dist@);
        assert(mapped.subrange(0, mapped.len() as int) =~= mapped);
        assert(entries_vw(root@) == spec_root_export(dist@));
    }

    // The manual-initialization subpath
    let mut slim: Vec<(String, Json)> = Vec::new();
    slim.push((String::from_str("types"), Json::Str(prefixed(dist, paths::types().as_str()))));
    slim.push(
        (
            String::from_str("import"),
            Json::Str(prefixed(dist, paths::esm_entrypoint(Environment::Slim).as_str())),
        ),
    );
    slim.push(
        (
            String::from_str("require"),
            Json::Str(prefixed(dist, paths::cjs_entrypoint(Environment::Slim).as_str())),
        ),
    );
    proof {
        lemma_entries_vw(slim@);
        assert(entries_vw(slim@) =~= seq![
            ("types"@, JsonV::Str(spec_prefixed(dist@, "index.d.ts"@))),
            (
                "import"@,
                JsonV::Str(spec_prefixed(dist@, paths::spec_esm_entrypoint(Environment::Slim))),
            ),
            (
                "require"@,
                JsonV::Str(spec_prefixed(dist@, paths::spec_cjs_entrypoint(Environment::Slim))),
            ),
        ]);
    }

    // The base64-module subpath
    let b64 = import_require_obj(
        prefixed(dist, paths::wasm_base64_esm().as_str()),
        prefixed(dist, paths::wasm_base64_cjs().as_str()),
    );

    let mut top: Vec<(String, Json)> = Vec::new();
    top.push((String::from_str("."), Json::Obj(root)));
    top.push((String::from_str("./slim"), Json::Obj(slim)));
    top.push(
        (
            String::from_str("./wasm"),
            Json::Str(prefixed(dist, paths::standalone_wasm(package_name).as_str())),
        ),
    );
    top.push((String::from_str("./wasm-base64"), b64));
    top.push((String::from_str("./iife"), Json::Str(prefixed(dist, paths::iife_bundle().as_str()))));
    proof {
        lemma_entries_vw(top@);
        assert(entries_vw(top@) =~= spec_exports(dist@, package_name@)->Obj_0);
    }
    Json::Obj(top)
}

// ============================================================================
// The manifest merge
// ============================================================================

/// The entries of the merged manifest: the module-type declaration, the
/// legacy main/module/types fields, the merged file-inclusion list, and the
/// exports graph, each set in place; every entry the merge does not own
/// keeps its position and value.
pub open spec fn spec_update_entries(
    e: Seq<(Seq<char>, JsonV)>,
    dist: Seq<char>,
    package_name: Seq<char>,
) -> Seq<(Seq<char>, JsonV)> {
    let e1 = jv_obj_set(e, "type"@, JsonV::Str("module"@));
    let e2 = jv_obj_set(
        e1,
        "main"@,
        JsonV::Str(spec_prefixed(dist, paths::spec_cjs_entrypoint(Environment::Node))),
    );
    let e3 = jv_obj_set(
        e2,
        "module"@,
        JsonV::Str(spec_prefixed(dist, paths::spec_esm_entrypoint(Environment::Bundler))),
    );
    let e4 = jv_obj_set(e3, "types"@, JsonV::Str(spec_prefixed(dist, "index.d.ts"@)));
    let e5 = jv_obj_set(
        e4,
        "files"@,
        JsonV::Arr(strs_to_jv(spec_files_value(jv_obj_get(e4, "files"@), dist))),
    );
    jv_obj_set(e5, "exports"@, spec_exports(dist, package_name))
}

/// The merged manifest, for an object manifest; anything else is refused.
pub open spec fn spec_update_manifest(
    m: JsonV,
    dist: Seq<char>,
    package_name: Seq<char>,
) -> Option<JsonV> {
    match m {
        JsonV::Obj(e) => Some(JsonV::Obj(spec_update_entries(e, dist, package_name))),
        _ => None,
    }
}

/// Merges the generated fields and exports map into the package manifest.
/// The manifest must be a JSON object; dist is the output directory's path
/// relative to the manifest's own directory.
pub fn update_manifest(manifest: Json, dist: &str, package_name: &str) -> (r: Result<
    Json,
    BuildError,
>)
    ensures
        (jv(manifest) is Obj) == (r is Ok),
        r matches Ok(j) ==> Some(jv(j)) == spec_update_manifest(jv(manifest), dist@, package_name@),
        r matches Err(e) ==> e == BuildError::ManifestNotObject,
{
    match manifest {
        Json::Obj(mut entries) => {
            entries_set(&mut entries, "type", Json::Str(String::from_str("module")));
            entries_set(
                &mut entries,
                "main",
                Json::Str(prefixed(dist, paths::cjs_entrypoint(Environment::Node).as_str())),
            );
            entries_set(
                &mut entries,
                "module",
                Json::Str(prefixed(dist, paths::esm_entrypoint(Environment::Bundler).as_str())),
            );
            entries_set(
                &mut entries,
                "types",
                Json::Str(prefixed(dist, paths::types().as_str())),
            );
            update_files_array(&mut entries, dist);
            entries_set(&mut entries, "exports", build_exports_map(dist, package_name));
            Ok(Json::Obj(entries))
        },
        _ => Err(BuildError::ManifestNotObject),
    }
}

proof fn lemma_extract_strs_to_jv(strs: Seq<Seq<char>>)
    ensures
        jv_extract_strings(strs_to_jv(strs)) == strs,
    decreases strs.len(),
{
    if strs.len() == 0 {
        assert(strs_to_jv(strs) =~= Seq::<JsonV>::empty());
        assert(jv_extract_strings(strs_to_jv(strs)) =~= strs);
    } else {
        assert(strs_to_jv(strs).drop_first() =~= strs_to_jv(strs.drop_first()));
        lemma_extract_strs_to_jv(strs.drop_first());
        assert(seq![strs[0]] + strs.drop_first() =~= strs);
    }
}

/// The manifest merge is idempotent: running it again on its own output,
/// with the same output directory and package name, returns that output
/// unchanged — in particular the exports graph and the file-inclusion list
/// come out byte-identical.
pub proof fn lemma_update_manifest_idempotent(m: JsonV, dist: Seq<char>, package_name: Seq<char>)
    ensures
        spec_update_manifest(m, dist, package_name) matches Some(m1)
            ==> spec_update_manifest(m1, dist, package_name) == Some(m1),
{
    reveal_strlit("type");
    reveal_strlit("main");
    reveal_strlit("module");
    reveal_strlit("types");
    reveal_strlit("files");
    reveal_strlit("exports");
    assert("type"@.len() == 4 && "main"@.len() == 4 && "module"@.len() == 6 && "types"@.len() == 5
        && "files"@.len() == 5 && "exports"@.len() == 7);
    assert("type"@[0] == 't' && "main"@[0] == 'm' && "types"@[0] == 't' && "files"@[0] == 'f');
    assert("type"@ != "main"@);
    assert("type"@ != "module"@);
    assert("type"@ != "types"@);
    assert("type"@ != "files"@);
    assert("type"@ != "exports"@);
    assert("main"@ != "module"@);
    assert("main"@ != "types"@);
    assert("main"@ != "files"@);
    assert("main"@ != "exports"@);
    assert("module"@ != "types"@);
    assert("module"@ != "files"@);
    assert("module"@ != "exports"@);
    assert("types"@ != "files"@);
    assert("types"@ != "exports"@);
    assert("files"@ != "exports"@);
    if m is Obj {
        let e = m->Obj_0;
        let vt = JsonV::Str("module"@);
        let vm = JsonV::Str(spec_prefixed(dist, paths::spec_cjs_entrypoint(Environment::Node)));
        let vmod = JsonV::Str(
            spec_prefixed(dist, paths::spec_esm_entrypoint(Environment::Bundler)),
        );
        let vty = JsonV::Str(spec_prefixed(dist, "index.d.ts"@));
        let e1 = jv_obj_set(e, "type"@, vt);
        let e2 = jv_obj_set(e1, "main"@, vm);
        let e3 = jv_obj_set(e2, "module"@, vmod);
        let e4 = jv_obj_set(e3, "types"@, vty);
        let merged = spec_files_value(jv_obj_get(e4, "files"@), dist);
        let vf = JsonV::Arr(strs_to_jv(merged));
        let e5 = jv_obj_set(e4, "files"@, vf);
        let vex = spec_exports(dist, package_name);
        let e6 = jv_obj_set(e5, "exports"@, vex);
        assert(spec_update_entries(e, dist, package_name) == e6);

        // The module-type declaration is already in place.
        lemma_get_set_other(e5, "exports"@, vex, "type"@);
        lemma_get_set_other(e4, "files"@, vf, "type"@);
        lemma_get_set_other(e3, "types"@, vty, "type"@);
        lemma_get_set_other(e2, "module"@, vmod, "type"@);
        lemma_get_set_other(e1, "main"@, vm, "type"@);
        lemma_get_set_same(e, "type"@, vt);
        assert(jv_obj_get(e6, "type"@) == Some(vt));
        lemma_set_present_identity(e6, "type"@, vt);
        let f1 = jv_obj_set(e6, "type"@, vt);
        assert(f1 == e6);

        // So are the legacy main/module/types fields.
        lemma_get_set_other(e5, "exports"@, vex, "main"@);
        lemma_get_set_other(e4, "files"@, vf, "main"@);
        lemma_get_set_other(e3, "types"@, vty, "main"@);
        lemma_get_set_other(e2, "module"@, vmod, "main"@);
        lemma_get_set_same(e1, "main"@, vm);
        lemma_set_present_identity(e6, "main"@, vm);
        let f2 = jv_obj_set(f1, "main"@, vm);
        assert(f2 == e6);

        lemma_get_set_other(e5, "exports"@, vex, "module"@);
        lemma_get_set_other(e4, "files"@, vf, "module"@);
        lemma_get_set_other(e3, "types"@, vty, "module"@);
        lemma_get_set_same(e2, "module"@, vmod);
        lemma_set_present_identity(e6, "module"@, vmod);
        let f3 = jv_obj_set(f2, "module"@, vmod);
        assert(f3 == e6);

        lemma_get_set_other(e5, "exports"@, vex, "types"@);
        lemma_get_set_other(e4, "files"@, vf, "types"@);
        lemma_get_set_same(e3, "types"@, vty);
        lemma_set_present_identity(e6, "types"@, vty);
        let f4 = jv_obj_set(f3, "types"@, vty);
        assert(f4 == e6);

        // The file list already covers the output directory, so the second
        // merge keeps it unchanged.
        lemma_get_set_other(e5, "exports"@, vex, "files"@);
        lemma_get_set_same(e4, "files"@, vf);
        assert(jv_obj_get(e6, "files"@) == Some(vf));
        lemma_extract_strs_to_jv(merged);
        lemma_files_merge_no_duplicate(
            match jv_obj_get(e4, "files"@) {
                Some(JsonV::Arr(items)) => jv_extract_strings(items),
                _ => Seq::empty(),
            },
            dist,
        );
        lemma_files_merge_no_duplicate(merged, dist);
        assert(spec_files_value(jv_obj_get(e6, "files"@), dist) == merged);
        lemma_set_present_identity(e6, "files"@, vf);
        let f5 = jv_obj_set(f4, "files"@, vf);
        assert(f5 == e6);

        // And so is the exports graph.
        lemma_get_set_same(e5, "exports"@, vex);
        lemma_set_present_identity(e6, "exports"@, vex);
        assert(jv_obj_set(f5, "exports"@, vex) == e6);

        assert(spec_update_entries(e6, dist, package_name) == e6);
    }
}

/// The package name: the manifest's top-level "name" string when present,
/// else the crate name with underscores turned into hyphens.
pub open spec fn spec_package_name(m: JsonV, crate_name: Seq<char>) -> Seq<char> {
    match m {
        JsonV::Obj(e) => match jv_obj_get(e, "name"@) {
            Some(JsonV::Str(s)) => s,
            _ => spec_underscore_to_dash(crate_name),
        },
        _ => spec_underscore_to_dash(crate_name),
    }
}

/// Reads the package name out of the package manifest, falling back to a
/// name derived from the crate name.
pub fn package_name_from_manifest(manifest: &Json, crate_name: &str) -> (r: String)
    ensures
        r@ == spec_package_name(jv(*manifest), crate_name@),
{
    match manifest {
        Json::Obj(entries) => {
            match entries_get(entries, "name") {
                Some(j) => {
                    match j {
                        Json::Str(s) => s.clone(),
                        _ => underscore_to_dash(crate_name),
                    }
                },
                None => underscore_to_dash(crate_name),
            }
        },
        _ => underscore_to_dash(crate_name),
    }
}

} // verus!
