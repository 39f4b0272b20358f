//! Locators (URLs or file paths) as the commands hand them to modules.
//!
//! Normalization goes in order, first success wins: a home-relative path
//! (`~/...`) is expanded against the home directory the caller supplies; the
//! result is canonicalized by `asimov_module`, and a `file:` result is
//! written with its (possibly empty) authority, `file:///path`; when
//! canonicalization fails, gives no absolute `file:` path, or meets a
//! home-relative path with no home directory known, the locator becomes
//! `file://` followed by the path made absolute against the caller's current
//! directory, as it is, without encoding (a path that already reads
//! `file://...` is kept). Normalization never fails its caller.

use vstd::prelude::*;
use asimov_module::normalization::NormalizeError;
use crate::text::starts_with;

verus! {

#[verifier::external_type_specification]
#[verifier::external_body]
pub struct ExNormalizeError(NormalizeError);

/// A path that only a home directory can resolve: `~/...`, or `file:~/...`.
pub open spec fn needs_home(p: Seq<char>) -> bool {
    "~/"@.is_prefix_of(p) || "file:~/"@.is_prefix_of(p)
}

/// A character that may begin a URI scheme: an ASCII letter.
pub open spec fn is_scheme_start(c: char) -> bool {
    ('a' <= c && c <= 'z') || ('A' <= c && c <= 'Z')
}

/// A character that may continue a URI scheme.
pub open spec fn is_scheme_char(c: char) -> bool {
    is_scheme_start(c) || ('0' <= c && c <= '9') || c == '+' || c == '-' || c == '.'
}

/// The end of the run of scheme characters in `s` that starts at `from`.
pub open spec fn scheme_end(s: Seq<char>, from: int) -> int
    decreases s.len() - from,
{
    if from < 0 || from >= s.len() || !is_scheme_char(s[from]) {
        from
    } else {
        scheme_end(s, from + 1)
    }
}

/// `s` begins with a URI scheme followed by `:`.
pub open spec fn has_scheme(s: Seq<char>) -> bool {
    &&& s.len() > 0
    &&& is_scheme_start(s[0])
    &&& scheme_end(s, 1) < s.len()
    &&& s[scheme_end(s, 1)] == ':'
}

/// The scheme that `s` begins with (meaningful when `has_scheme(s)`).
pub open spec fn scheme_of(s: Seq<char>) -> Seq<char> {
    s.take(scheme_end(s, 1))
}

/// `s` with ASCII capital letters made small.
pub open spec fn ascii_lower(s: Seq<char>) -> Seq<char> {
    s.map_values(|c: char| if 'A' <= c && c <= 'Z' { ((c as u32) + 32) as char } else { c })
}

/// The canonical form `asimov_module::normalization::normalize_url` gives
/// a locator whose scheme is not `file`: it depends on the locator alone.
pub uninterp spec fn canonical_iri(s: Seq<char>) -> Seq<char>;

/// Relies on `asimov_module::normalization::normalize_url`, which parses a
/// URL or a file path as an IRI reference and rebuilds it normalized. The
/// rebuilt IRI begins with its scheme, lowercased by the normalization, and
/// `:`; a locator without a scheme gets `file`. Only for the scheme `file`
/// (as written) does it read the filesystem and the current directory;
/// otherwise the result depends on the locator alone. A home-relative path
/// makes it read the home directory and panic when there is none: `requires`
/// leaves such locators out.
#[verifier::external_body]
fn normalize_url(locator: &str) -> (r: Result<String, NormalizeError>)
    requires
        !needs_home(locator@),
    ensures
        r is Ok && !has_scheme(locator@) ==> "file:"@.is_prefix_of(r->Ok_0@),
        r is Ok && has_scheme(locator@) ==> (ascii_lower(scheme_of(locator@)) + ":"@).is_prefix_of(r->Ok_0@),
        r is Ok && has_scheme(locator@) && scheme_of(locator@) != "file"@ ==> r->Ok_0@ == canonical_iri(locator@),
{
    asimov_module::normalization::normalize_url(locator)
}

/// The view of an optional string slice.
pub open spec fn opt_str_view(s: Option<&str>) -> Option<Seq<char>> {
    match s {
        Some(t) => Some(t@),
        None => None,
    }
}

/// `rest` inside the directory `dir`, with one `/` between them.
pub open spec fn joined_path(dir: Seq<char>, rest: Seq<char>) -> Seq<char> {
    if dir.len() > 0 && dir.last() == '/' {
        dir + rest
    } else {
        dir + "/"@ + rest
    }
}

/// What follows the home-directory marker of a home-relative locator.
pub open spec fn home_relative_rest(given: Seq<char>) -> Option<Seq<char>> {
    if "~/"@.is_prefix_of(given) {
        Some(given.skip(2))
    } else if "file:~/"@.is_prefix_of(given) {
        Some(given.skip(7))
    } else {
        None
    }
}

/// The locator with a leading `~/` (or `file:~/`) expanded against `home`;
/// without a home directory, the path keeps its `~/`.
pub open spec fn local_path(given: Seq<char>, home: Option<Seq<char>>) -> Seq<char> {
    match home_relative_rest(given) {
        Some(rest) => match home {
            Some(h) => joined_path(h, rest),
            None => "~/"@ + rest,
        },
        None => given,
    }
}

/// `p` made absolute against the directory `cwd`.
pub open spec fn absolute_path(p: Seq<char>, cwd: Seq<char>) -> Seq<char> {
    if "/"@.is_prefix_of(p) {
        p
    } else {
        joined_path(cwd, p)
    }
}

/// The best-effort locator of the path `p`: `file://` and the absolute
/// path, as it is, without encoding. A path that already is such a locator
/// is kept.
pub open spec fn fallback_locator(p: Seq<char>, cwd: Seq<char>) -> Seq<char> {
    if "file://"@.is_prefix_of(p) {
        p
    } else {
        "file://"@ + absolute_path(p, cwd)
    }
}

/// A canonical `file:` IRI written with its authority: `file:/x` becomes
/// `file:///x` (an empty authority), and `file://...` stays as it is.
pub open spec fn with_authority(n: Seq<char>) -> Seq<char> {
    if "file://"@.is_prefix_of(n) {
        n
    } else {
        "file://"@ + n.skip(5)
    }
}

/// The locator of the path `path` given what canonicalization produced: a
/// `file:` IRI with an absolute path is written with its authority, a
/// `file:` IRI without one gives way to the fallback, any other IRI is kept;
/// without a canonical form, the fallback.
pub open spec fn locator_of(path: Seq<char>, cwd: Seq<char>, normalized: Option<Seq<char>>) -> Seq<char> {
    match normalized {
        Some(n) => if "file:/"@.is_prefix_of(n) {
            with_authority(n)
        } else if "file:"@.is_prefix_of(n) {
            fallback_locator(path, cwd)
        } else {
            n
        },
        None => fallback_locator(path, cwd),
    }
}

proof fn lemma_prefix_of_concat(a: Seq<char>, b: Seq<char>)
    ensures
        a.is_prefix_of(a + b),
{
    assert((a + b).subrange(0, a.len() as int) =~= a);
}

/// A fallback locator always begins with `file://`, and when it is built
/// from the path its path is absolute whenever the current directory is.
pub proof fn lemma_fallback_is_absolute_file_locator(p: Seq<char>, cwd: Seq<char>)
    ensures
        "file://"@.is_prefix_of(fallback_locator(p, cwd)),
        "/"@.is_prefix_of(cwd) && !"file://"@.is_prefix_of(p) ==> "file:///"@.is_prefix_of(fallback_locator(p, cwd)),
{
    reveal_strlit("file://");
    reveal_strlit("file:///");
    reveal_strlit("/");
    if "file://"@.is_prefix_of(p) {
        return;
    }
    let a = absolute_path(p, cwd);
    lemma_prefix_of_concat("file://"@, a);
    if "/"@.is_prefix_of(cwd) {
        assert(a[0] == '/') by {
            if !"/"@.is_prefix_of(p) {
                if cwd.len() > 0 && cwd.last() == '/' {
                    assert(a == cwd + p);
                } else {
                    assert(a == cwd + "/"@ + p);
                }
                assert(cwd.subrange(0, 1)[0] == cwd[0]);
            } else {
                assert(p.subrange(0, 1)[0] == p[0]);
            }
        }
        assert(("file://"@ + a).subrange(0, 8) =~= "file:///"@);
    }
}

/// Falling back twice gives what falling back once gave.
pub proof fn lemma_fallback_is_idempotent(p: Seq<char>, cwd: Seq<char>)
    ensures
        fallback_locator(fallback_locator(p, cwd), cwd) == fallback_locator(p, cwd),
{
    lemma_fallback_is_absolute_file_locator(p, cwd);
}

/// Whatever canonicalization gives, the locator of a path begins with
/// `file://` when the canonical form, if any, has the `file` scheme.
pub proof fn lemma_file_locators_have_authority(path: Seq<char>, cwd: Seq<char>, normalized: Option<Seq<char>>)
    requires
        normalized matches Some(n) ==> "file:"@.is_prefix_of(n),
    ensures
        "file://"@.is_prefix_of(locator_of(path, cwd, normalized)),
{
    reveal_strlit("file://");
    lemma_fallback_is_absolute_file_locator(path, cwd);
    if let Some(n) = normalized {
        if "file:/"@.is_prefix_of(n) && !"file://"@.is_prefix_of(n) {
            lemma_prefix_of_concat("file://"@, n.skip(5));
        }
    }
}

proof fn lemma_scheme_end_bounds(s: Seq<char>, from: int)
    requires
        0 <= from <= s.len(),
    ensures
        from <= scheme_end(s, from) <= s.len(),
        forall|j: int| from <= j < scheme_end(s, from) ==> is_scheme_char(#[trigger] s[j]),
    decreases s.len() - from,
{
    if from < s.len() && is_scheme_char(s[from]) {
        lemma_scheme_end_bounds(s, from + 1);
    }
}

/// An IRI that begins with a scheme other than `file`, lowercased, does not
/// begin with `file:`.
proof fn lemma_other_scheme_is_not_file(s: Seq<char>, n: Seq<char>)
    requires
        has_scheme(s),
        (ascii_lower(scheme_of(s)) + ":"@).is_prefix_of(n),
        ascii_lower(scheme_of(s)) != "file"@,
    ensures
        !"file:"@.is_prefix_of(n),
{
    reveal_strlit("file:");
    reveal_strlit("file");
    reveal_strlit(":");
    lemma_scheme_end_bounds(s, 1);
    let sc = ascii_lower(scheme_of(s));
    let k = sc.len() as int;
    assert(n[k] == ':') by {
        assert((sc + ":"@)[k] == ':');
        assert(n.subrange(0, k + 1)[k] == n[k]);
    }
    assert forall|j: int| 0 <= j < k implies n[j] != ':' by {
        assert((sc + ":"@)[j] == sc[j]);
        assert(n.subrange(0, k + 1)[j] == n[j]);
        assert(is_scheme_char(s[j]) || j == 0);
    }
    if "file:"@.is_prefix_of(n) {
        assert(n.subrange(0, 5)[4] == n[4]);
        assert(n[4] == ':');
        if k < 4 {
            assert(n.subrange(0, 5)[k] == n[k]);
        }
        assert(k == 4);
        assert forall|j: int| 0 <= j < 4 implies sc[j] == "file"@[j] by {
            assert((sc + ":"@)[j] == sc[j]);
            assert(n.subrange(0, k + 1)[j] == n[j]);
            assert(n.subrange(0, 5)[j] == n[j]);
        }
        assert(sc =~= "file"@);
    }
}

/// `rest` inside the directory `dir`.
fn join_path(dir: &str, rest: &str) -> (r: String)
    ensures
        r@ == joined_path(dir@, rest@),
{
    let n = dir.unicode_len();
    let mut r = dir.to_owned();
    if n == 0 || dir.get_char(n - 1) != '/' {
        r.append("/");
    }
    r.append(rest);
    r
}

/// The locator with a leading `~/` or `file:~/` expanded against `home`.
fn expand_home(given: &str, home: Option<&str>) -> (r: String)
    ensures
        r@ == local_path(given@, opt_str_view(home)),
{
    proof {
        reveal_strlit("~/");
        reveal_strlit("file:~/");
    }
    let n = given.unicode_len();
    let skip: usize = if starts_with(given, "~/") {
        2
    } else if starts_with(given, "file:~/") {
        7
    } else {
        return given.to_owned();
    };
    let rest = given.substring_char(skip, n);
    assert(rest@ == given@.skip(skip as int));
    match home {
        Some(h) => join_path(h, rest),
        None => {
            let mut r = "~/".to_owned();
            r.append(rest);
            r
        },
    }
}

/// The best-effort locator of the path `path`, made absolute against `cwd`.
fn fallback(path: &str, cwd: &str) -> (r: String)
    ensures
        r@ == fallback_locator(path@, cwd@),
{
    if starts_with(path, "file://") {
        return path.to_owned();
    }
    let mut r = "file://".to_owned();
    if starts_with(path, "/") {
        r.append(path);
    } else {
        r.append(join_path(cwd, path).as_str());
    }
    r
}

/// The locator of the path `path`, given what canonicalization produced for
/// it (`None` when it failed), with `cwd` the current directory.
pub fn locator_from(path: &str, cwd: &str, normalized: Option<String>) -> (r: String)
    ensures
        r@ == locator_of(path@, cwd@, match normalized {
            Some(n) => Some(n@),
            None => None::<Seq<char>>,
        }),
{
    match normalized {
        Some(n) => {
            if starts_with(n.as_str(), "file:/") {
                if starts_with(n.as_str(), "file://") {
                    n
                } else {
                    let k = n.as_str().unicode_len();
                    let mut r = "file://".to_owned();
                    proof {
                        reveal_strlit("file:/");
                    }
                    r.append(n.as_str().substring_char(5, k));
                    r
                }
            } else if starts_with(n.as_str(), "file:") {
                fallback(path, cwd)
            } else {
                n
            }
        },
        None => fallback(path, cwd),
    }
}

/// Normalizes the locator `given`, with `home` the home directory (if one is
/// known) and `cwd` the current directory. Returns the locator to work with
/// and, when canonicalization failed, its error. A locator without a scheme
/// always comes out as a `file://` locator; one with a scheme other than
/// `file` keeps its scheme (lowercased) and is otherwise what
/// canonicalization made of it.
pub fn normalize_locator(given: &str, home: Option<&str>, cwd: &str) -> (r: (String, Option<NormalizeError>))
    ensures
        r.1 is Some ==> r.0@ == fallback_locator(local_path(given@, opt_str_view(home)), cwd@),
        needs_home(local_path(given@, opt_str_view(home))) ==> r.1 is None
            && r.0@ == fallback_locator(local_path(given@, opt_str_view(home)), cwd@),
        !has_scheme(local_path(given@, opt_str_view(home))) ==> "file://"@.is_prefix_of(r.0@),
        has_scheme(local_path(given@, opt_str_view(home)))
            && ascii_lower(scheme_of(local_path(given@, opt_str_view(home)))) != "file"@
            && r.1 is None ==> r.0@ == canonical_iri(local_path(given@, opt_str_view(home)))
            && (ascii_lower(scheme_of(local_path(given@, opt_str_view(home)))) + ":"@).is_prefix_of(r.0@),
{
    let path = expand_home(given, home);
    proof {
        lemma_fallback_is_absolute_file_locator(path@, cwd@);
        reveal_strlit("file");
        reveal_strlit("file:~/");
        reveal_strlit("~/");
    }
    if starts_with(path.as_str(), "~/") || starts_with(path.as_str(), "file:~/") {
        proof {
            let q = path@;
            if "~/"@.is_prefix_of(q) {
                assert(q.subrange(0, 2)[0] == q[0]);
                assert(!has_scheme(q));
            } else {
                assert forall|j: int| 0 <= j < 7 implies q[j] == "file:~/"@[j] by {
                    assert(q.subrange(0, 7)[j] == q[j]);
                }
                assert(scheme_end(q, 4) == 4);
                assert(scheme_end(q, 3) == 4);
                assert(scheme_end(q, 2) == 4);
                assert(scheme_end(q, 1) == 4);
                assert(scheme_of(q) =~= "file"@);
                assert(ascii_lower("file"@) =~= "file"@);
            }
        }
        return (locator_from(path.as_str(), cwd, None), None);
    }
    match normalize_url(path.as_str()) {
        Ok(canonical) => {
            let ghost n = canonical@;
            proof {
                if !has_scheme(path@) {
                    lemma_file_locators_have_authority(path@, cwd@, Some(n));
                } else if ascii_lower(scheme_of(path@)) != "file"@ {
                    lemma_other_scheme_is_not_file(path@, n);
                    reveal_strlit("file:/");
                    reveal_strlit("file:");
                    assert(!"file:/"@.is_prefix_of(n)) by {
                        if "file:/"@.is_prefix_of(n) {
                            assert(n.subrange(0, 6).subrange(0, 5) =~= n.subrange(0, 5));
                            assert("file:/"@.subrange(0, 5) =~= "file:"@);
                        }
                    }
                    assert(scheme_of(path@) != "file"@) by {
                        if scheme_of(path@) == "file"@ {
                            assert(ascii_lower("file"@) =~= "file"@);
                        }
                    }
                }
            }
            (locator_from(path.as_str(), cwd, Some(canonical)), None)
        },
        Err(e) => (locator_from(path.as_str(), cwd, None), Some(e)),
    }
}

} // verus!
