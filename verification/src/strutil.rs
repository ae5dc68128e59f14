//! Verified string helpers: module-name normalization, substring search, and
//! literal replace-all. These back the source-level transforms of the
//! post-processor and the name derivations of the synthesizers.

use vstd::prelude::*;
use vstd::string::*;

verus! {

/// Relies on String::push: appends exactly the given character.
#[verifier::external_body]
pub(crate) fn push_char(s: &mut String, c: char)
    ensures
        final(s)@ == old(s)@.push(c),
{
    s.push(c);
}

/// Relies on str's PartialEq: two string slices are equal exactly when
/// their character contents are.
#[verifier::external_body]
pub(crate) fn str_eq(a: &str, b: &str) -> (r: bool)
    ensures
        r == (a@ == b@),
{
    a == b
}

/// A module name with hyphens replaced by the generator's required separator.
pub open spec fn spec_dash_to_underscore(s: Seq<char>) -> Seq<char> {
    s.map_values(
        |c: char|
            if c == '-' {
                '_'
            } else {
                c
            },
    )
}

/// Normalizes a crate name to the identifier used in generated files:
/// every hyphen becomes an underscore.
pub fn dash_to_underscore(s: &str) -> (r: String)
    ensures
        r@ == spec_dash_to_underscore(s@),
{
    let n = s.unicode_len();
    let mut out = String::new();
    let mut i: usize = 0;
    while i < n
        invariant
            n == s@.len(),
            i <= n,
            out@ == spec_dash_to_underscore(s@).subrange(0, i as int),
        decreases n - i,
    {
        let c = s.get_char(i);
        if c == '-' {
            push_char(&mut out, '_');
        } else {
            push_char(&mut out, c);
        }
        i = i + 1;
        proof {
            assert(out@ =~= spec_dash_to_underscore(s@).subrange(0, i as int));
        }
    }
    proof {
        assert(spec_dash_to_underscore(s@).subrange(0, n as int) =~= spec_dash_to_underscore(s@));
    }
    out
}

/// A package name derived from a crate name: every underscore becomes a
/// hyphen.
pub open spec fn spec_underscore_to_dash(s: Seq<char>) -> Seq<char> {
    s.map_values(
        |c: char|
            if c == '_' {
                '-'
            } else {
                c
            },
    )
}

/// Derives a package name from a crate name: every underscore becomes a
/// hyphen.
pub fn underscore_to_dash(s: &str) -> (r: String)
    ensures
        r@ == spec_underscore_to_dash(s@),
{
    let n = s.unicode_len();
    let mut out = String::new();
    let mut i: usize = 0;
    while i < n
        invariant
            n == s@.len(),
            i <= n,
            out@ == spec_underscore_to_dash(s@).subrange(0, i as int),
        decreases n - i,
    {
        let c = s.get_char(i);
        if c == '_' {
            push_char(&mut out, '-');
        } else {
            push_char(&mut out, c);
        }
        i = i + 1;
        proof {
            assert(out@ =~= spec_underscore_to_dash(s@).subrange(0, i as int));
        }
    }
    proof {
        assert(spec_underscore_to_dash(s@).subrange(0, n as int) =~= spec_underscore_to_dash(s@));
    }
    out
}

/// The prefix stands at the start of s.
pub open spec fn spec_starts_with(s: Seq<char>, pre: Seq<char>) -> bool {
    pre.len() <= s.len() && s.subrange(0, pre.len() as int) == pre
}

/// Whether s starts with the given prefix.
pub fn starts_with(s: &str, pre: &str) -> (r: bool)
    ensures
        r == spec_starts_with(s@, pre@),
{
    let n = s.unicode_len();
    let m = pre.unicode_len();
    if m > n {
        return false;
    }
    matches_at(s, pre, 0)
}

/// The needle occurs in s at some position.
pub open spec fn spec_contains(s: Seq<char>, sub: Seq<char>) -> bool {
    exists|i: int| 0 <= i && i + sub.len() <= s.len() && #[trigger] s.subrange(i, i + sub.len())
        == sub
}

/// A needle contained in the left part of a concatenation is contained in
/// the whole.
pub proof fn lemma_contains_concat_l(a: Seq<char>, b: Seq<char>, sub: Seq<char>)
    requires
        spec_contains(a, sub),
    ensures
        spec_contains(a + b, sub),
{
    let i = choose|i: int|
        0 <= i && i + sub.len() <= a.len() && #[trigger] a.subrange(i, i + sub.len()) == sub;
    assert((a + b).subrange(i, i + sub.len()) =~= sub);
}

/// A needle contained in the right part of a concatenation is contained in
/// the whole.
pub proof fn lemma_contains_concat_r(a: Seq<char>, b: Seq<char>, sub: Seq<char>)
    requires
        spec_contains(b, sub),
    ensures
        spec_contains(a + b, sub),
{
    let i = choose|i: int|
        0 <= i && i + sub.len() <= b.len() && #[trigger] b.subrange(i, i + sub.len()) == sub;
    assert((a + b).subrange(a.len() + i, a.len() + i + sub.len()) =~= sub);
}

/// s with every non-overlapping occurrence of the needle, found left to
/// right, replaced by the replacement. An empty needle replaces nothing.
pub open spec fn spec_replace_all(s: Seq<char>, needle: Seq<char>, repl: Seq<char>) -> Seq<char>
    decreases s.len(),
{
    if needle.len() == 0 {
        s
    } else if s.len() < needle.len() {
        s
    } else if s.subrange(0, needle.len() as int) == needle {
        repl + spec_replace_all(s.skip(needle.len() as int), needle, repl)
    } else {
        seq![s[0]] + spec_replace_all(s.skip(1), needle, repl)
    }
}

/// Whether the needle occurs in s exactly at position i.
fn matches_at(s: &str, needle: &str, i: usize) -> (r: bool)
    requires
        i + needle@.len() <= s@.len(),
        i + needle@.len() <= usize::MAX,
    ensures
        r == (s@.subrange(i as int, i as int + needle@.len() as int) == needle@),
{
    let m = needle.unicode_len();
    let mut j: usize = 0;
    while j < m
        invariant
            m == needle@.len(),
            i + m <= s@.len(),
            i + m <= usize::MAX,
            j <= m,
            forall|k: int| 0 <= k < j ==> s@[i + k] == needle@[k],
        decreases m - j,
    {
        if s.get_char(i + j) != needle.get_char(j) {
            proof {
                assert(s@.subrange(i as int, i as int + m as int)[j as int] != needle@[j as int]);
            }
            return false;
        }
        j = j + 1;
    }
    proof {
        assert(s@.subrange(i as int, i as int + m as int) =~= needle@);
    }
    true
}

proof fn lemma_skip_parts(s: Seq<char>, a: int, m: int)
    requires
        0 <= a,
        0 < m,
        a + m <= s.len(),
    ensures
        s.skip(a).subrange(0, m) == s.subrange(a, a + m),
        s.skip(a).skip(m) == s.skip(a + m),
        s.skip(a).subrange(1, s.skip(a).len() as int) == s.skip(a + 1),
        s.skip(a)[0] == s[a],
{
    assert(s.skip(a).subrange(0, m) =~= s.subrange(a, a + m));
    assert(s.skip(a).skip(m) =~= s.skip(a + m));
    assert(s.skip(a).subrange(1, s.skip(a).len() as int) =~= s.skip(a + 1));
}

/// Replaces every non-overlapping occurrence of the needle in s, scanning
/// left to right, with the replacement.
pub fn replace_all(s: &str, needle: &str, repl: &str) -> (r: String)
    ensures
        r@ == spec_replace_all(s@, needle@, repl@),
{
    let n = s.unicode_len();
    let m = needle.unicode_len();
    if m == 0 {
        return String::from_str(s);
    }
    let mut out = String::new();
    let mut i: usize = 0;
    proof {
        assert(s@.skip(0) =~= s@);
        assert(Seq::<char>::empty() + spec_replace_all(s@.skip(0), needle@, repl@)
            =~= spec_replace_all(s@, needle@, repl@));
    }
    while i < n
        invariant
            n == s@.len(),
            m == needle@.len(),
            0 < m,
            i <= n,
            spec_replace_all(s@, needle@, repl@) == out@ + spec_replace_all(
                s@.skip(i as int),
                needle@,
                repl@,
            ),
        decreases n - i,
    {
        if m <= n - i && matches_at(s, needle, i) {
            proof {
                lemma_skip_parts(s@, i as int, m as int);
                assert(s@.skip(i as int).subrange(0, m as int) == needle@);
                assert(spec_replace_all(s@.skip(i as int), needle@, repl@) == repl@
                    + spec_replace_all(s@.skip(i as int + m as int), needle@, repl@));
                assert(out@ + (repl@ + spec_replace_all(s@.skip(i as int + m as int), needle@, repl@))
                    =~= (out@ + repl@) + spec_replace_all(s@.skip(i as int + m as int), needle@, repl@));
            }
            out.append(repl);
            i = i + m;
        } else {
            let c = s.get_char(i);
            proof {
                let rest = s@.skip(i as int);
                assert(rest.len() == n - i);
                if m <= n - i {
                    lemma_skip_parts(s@, i as int, m as int);
                    assert(rest.subrange(0, m as int) != needle@);
                    assert(rest[0] == s@[i as int]);
                    assert(spec_replace_all(rest, needle@, repl@) == seq![s@[i as int]]
                        + spec_replace_all(s@.skip(i as int + 1), needle@, repl@));
                } else {
                    assert(rest.len() < m);
                    assert(spec_replace_all(rest, needle@, repl@) == rest);
                    assert(rest =~= seq![s@[i as int]] + s@.skip(i as int + 1));
                    assert(s@.skip(i as int + 1).len() < m);
                    assert(spec_replace_all(s@.skip(i as int + 1), needle@, repl@) == s@.skip(
                        i as int + 1,
                    ));
                }
                assert(out@ + (seq![s@[i as int]] + spec_replace_all(
                    s@.skip(i as int + 1),
                    needle@,
                    repl@,
                )) =~= out@.push(s@[i as int]) + spec_replace_all(
                    s@.skip(i as int + 1),
                    needle@,
                    repl@,
                ));
            }
            push_char(&mut out, c);
            i = i + 1;
        }
    }
    proof {
        assert(s@.skip(n as int) =~= Seq::<char>::empty());
        assert(spec_replace_all(s@.skip(n as int), needle@, repl@) == s@.skip(n as int));
        assert(out@ + s@.skip(n as int) =~= out@);
    }
    out
}

} // verus!
