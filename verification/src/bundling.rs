//! Bundler invoker decisions: which synthesized ESM entrypoints must be
//! compiled down to single-file CommonJS or global-script form, and the
//! exact argument list each external bundler invocation gets. Spawning the
//! bundler itself is the caller's task.

use vstd::prelude::*;
use vstd::string::*;

use crate::paths;
use crate::targets::{spec_all_environments, Environment};

verus! {

/// What heck's pascal-case conversion returns for the given name: its
/// capitalized-identifier form, a function of the characters alone.
pub uninterp spec fn pascal_of(s: Seq<char>) -> Seq<char>;

/// Relies on heck's ToPascalCase (an alias of ToUpperCamelCase): converts
/// a name to its capitalized-identifier form; the result depends on the
/// characters alone, and an empty name stays empty.
#[verifier::external_body]
fn to_pascal_case(s: &str) -> (r: String)
    ensures
        r@ == pascal_of(s@),
        s@.len() == 0 ==> r@.len() == 0,
{
    heck::ToPascalCase::to_pascal_case(s)
}

/// The output format of one bundler invocation.
#[derive(Debug, Clone, Copy, PartialEq, Eq, Structural)]
pub enum BundleFormat {
    /// A self-contained global-script bundle.
    Iife,
    /// A single-file CommonJS bundle.
    Cjs,
}

/// One planned bundler invocation: entry file, output file, output format,
/// and the global symbol name for script-tag bundles.
pub struct BundleJob {
    pub input: String,
    pub output: String,
    pub format: BundleFormat,
    pub global_name: Option<String>,
}

/// The mathematical shape of a planned invocation.
pub open spec fn spec_job_vw(j: BundleJob) -> (Seq<char>, Seq<char>, BundleFormat, Option<
    Seq<char>,
>) {
    (
        j.input@,
        j.output@,
        j.format,
        match j.global_name {
            Some(s) => Some(s@),
            None => None,
        },
    )
}

/// The shapes of a whole plan.
pub open spec fn spec_jobs_vw(jobs: Seq<BundleJob>) -> Seq<
    (Seq<char>, Seq<char>, BundleFormat, Option<Seq<char>>),
> {
    jobs.map_values(|j: BundleJob| spec_job_vw(j))
}

/// The CommonJS bundle jobs an environment list calls for: one per
/// environment whose CommonJS form needs external bundling, from its ESM
/// entrypoint to its CJS entrypoint.
pub open spec fn spec_cjs_jobs(envs: Seq<Environment>) -> Seq<
    (Seq<char>, Seq<char>, BundleFormat, Option<Seq<char>>),
>
    decreases envs.len(),
{
    if envs.len() == 0 {
        Seq::empty()
    } else {
        (if envs[0].spec_needs_cjs_bundle() {
            seq![
                (
                    paths::spec_esm_entrypoint(envs[0]),
                    paths::spec_cjs_entrypoint(envs[0]),
                    BundleFormat::Cjs,
                    None::<Seq<char>>,
                ),
            ]
        } else {
            Seq::empty()
        }) + spec_cjs_jobs(envs.drop_first())
    }
}

proof fn lemma_cjs_jobs_push(envs: Seq<Environment>, e: Environment)
    ensures
        spec_cjs_jobs(envs.push(e)) == spec_cjs_jobs(envs) + (if e.spec_needs_cjs_bundle() {
            seq![
                (
                    paths::spec_esm_entrypoint(e),
                    paths::spec_cjs_entrypoint(e),
                    BundleFormat::Cjs,
                    None::<Seq<char>>,
                ),
            ]
        } else {
            Seq::<(Seq<char>, Seq<char>, BundleFormat, Option<Seq<char>>)>::empty()
        }),
    decreases envs.len(),
{
    let tail = if e.spec_needs_cjs_bundle() {
        seq![
            (
                paths::spec_esm_entrypoint(e),
                paths::spec_cjs_entrypoint(e),
                BundleFormat::Cjs,
                None::<Seq<char>>,
            ),
        ]
    } else {
        Seq::<(Seq<char>, Seq<char>, BundleFormat, Option<Seq<char>>)>::empty()
    };
    let head: Seq<(Seq<char>, Seq<char>, BundleFormat, Option<Seq<char>>)> = if envs.push(
        e,
    )[0].spec_needs_cjs_bundle() {
        seq![
            (
                paths::spec_esm_entrypoint(envs.push(e)[0]),
                paths::spec_cjs_entrypoint(envs.push(e)[0]),
                BundleFormat::Cjs,
                None::<Seq<char>>,
            ),
        ]
    } else {
        Seq::empty()
    };
    if envs.len() == 0 {
        assert(envs.push(e).drop_first() =~= envs);
        assert(spec_cjs_jobs(envs.push(e)) =~= spec_cjs_jobs(envs) + tail);
    } else {
        assert(envs.push(e).drop_first() =~= envs.drop_first().push(e));
        lemma_cjs_jobs_push(envs.drop_first(), e);
        assert(head + (spec_cjs_jobs(envs.drop_first()) + tail) =~= (head + spec_cjs_jobs(
            envs.drop_first(),
        )) + tail);
    }
}

/// Plans every bundler invocation of one pipeline run: first the
/// global-script bundle from the web ESM entrypoint, under the package
/// name's capitalized-identifier form, then one CommonJS bundle per
/// environment whose flag asks for it, in declaration order.
pub fn bundle_jobs(crate_name: &str) -> (r: Vec<BundleJob>)
    ensures
        r@.len() >= 1,
        spec_job_vw(r@[0]) == (
            paths::spec_esm_entrypoint(Environment::Web),
            "iife/index.js"@,
            BundleFormat::Iife,
            Some(pascal_of(crate_name@)),
        ),
        spec_jobs_vw(r@).drop_first() == spec_cjs_jobs(spec_all_environments()),
{
    let mut jobs: Vec<BundleJob> = Vec::new();
    jobs.push(
        BundleJob {
            input: paths::esm_entrypoint(Environment::Web),
            output: paths::iife_bundle(),
            format: BundleFormat::Iife,
            global_name: Some(to_pascal_case(crate_name)),
        },
    );
    proof {
        assert(spec_jobs_vw(jobs@).drop_first() =~= Seq::<
            (Seq<char>, Seq<char>, BundleFormat, Option<Seq<char>>),
        >::empty());
        assert(spec_cjs_jobs(spec_all_environments().subrange(0, 0)) =~= Seq::<
            (Seq<char>, Seq<char>, BundleFormat, Option<Seq<char>>),
        >::empty());
    }
    let envs = Environment::all();
    let mut i: usize = 0;
    while i < envs.len()
        invariant
            envs@ == spec_all_environments(),
            i <= envs@.len(),
            jobs@.len() >= 1,
            spec_job_vw(jobs@[0]) == (
                paths::spec_esm_entrypoint(Environment::Web),
                "iife/index.js"@,
                BundleFormat::Iife,
                Some(pascal_of(crate_name@)),
            ),
            spec_jobs_vw(jobs@).drop_first() == spec_cjs_jobs(
                spec_all_environments().subrange(0, i as int),
            ),
        decreases envs@.len() - i,
    {
        let env = envs[i];
        let ghost jobs0 = jobs@;
        let ghost prefix = spec_all_environments().subrange(0, i as int);
        if env.needs_cjs_bundle() {
            jobs.push(
                BundleJob {
                    input: paths::esm_entrypoint(env),
                    output: paths::cjs_entrypoint(env),
                    format: BundleFormat::Cjs,
                    global_name: None,
                },
            );
        }
        proof {
            assert(spec_all_environments().subrange(0, i as int + 1) =~= prefix.push(env));
            lemma_cjs_jobs_push(prefix, env);
            assert(spec_jobs_vw(jobs@).drop_first() =~= spec_cjs_jobs(prefix.push(env)));
        }
        i = i + 1;
    }
    proof {
        assert(spec_all_environments().subrange(0, spec_all_environments().len() as int)
            =~= spec_all_environments());
    }
    jobs
}

/// The argument list of one external bundler invocation: the entry file,
/// bundling mode on, the output format and file, the suppression of the
/// benign import.meta warning under non-ESM formats, the node platform
/// hint for CommonJS bundles, and the global name for script-tag bundles.
pub open spec fn spec_esbuild_args(j: BundleJob) -> Seq<Seq<char>> {
    seq![
        j.input@,
        "--bundle"@,
        (match j.format {
            BundleFormat::Iife => "--format=iife"@,
            BundleFormat::Cjs => "--format=cjs"@,
        }),
        "--outfile="@ + j.output@,
        "--log-override:empty-import-meta=silent"@,
    ] + (match j.format {
        BundleFormat::Cjs => seq!["--platform=node"@],
        BundleFormat::Iife => Seq::<Seq<char>>::empty(),
    }) + (match j.global_name {
        Some(g) => seq!["--global-name="@ + g@],
        None => Seq::<Seq<char>>::empty(),
    })
}

/// Builds the external bundler's argument list for one planned invocation.
pub fn esbuild_args(j: &BundleJob) -> (r: Vec<String>)
    ensures
        r.deep_view() == spec_esbuild_args(*j),
{
    let mut args: Vec<String> = Vec::new();
    args.push(String::from_str(j.input.as_str()));
    args.push(String::from_str("--bundle"));
    match j.format {
        BundleFormat::Iife => args.push(String::from_str("--format=iife")),
        BundleFormat::Cjs => args.push(String::from_str("--format=cjs")),
    }
    let mut outfile = String::from_str("--outfile=");
    outfile.append(j.output.as_str());
    args.push(outfile);
    args.push(String::from_str("--log-override:empty-import-meta=silent"));
    match j.format {
        BundleFormat::Cjs => args.push(String::from_str("--platform=node")),
        BundleFormat::Iife => (),
    }
    match &j.global_name {
        Some(g) => {
            let mut gn = String::from_str("--global-name=");
            gn.append(g.as_str());
            args.push(gn);
        },
        None => (),
    }
    proof {
        assert(args.deep_view() =~= spec_esbuild_args(*j));
    }
    args
}

} // verus!
