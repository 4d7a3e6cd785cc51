//! Lexical path handling for profile paths: home expansion, joining onto a
//! base directory and cleaning. Paths are Unix paths held as strings.

use vstd::prelude::*;
use vstd::string::*;

use crate::text::{opt_view, starts_with, text_eq, text_starts_with};

verus! {

/// A Unix path is absolute when it starts at the root `/`.
pub open spec fn is_absolute(p: Seq<char>) -> bool {
    p.len() > 0 && p[0] == '/'
}

/// Joining `p` onto `base`, as `Path::join` does on Unix: an absolute `p`
/// replaces `base`; otherwise `p` follows `base`, with one `/` between them
/// unless `base` is empty or already ends in `/`.
pub open spec fn join(base: Seq<char>, p: Seq<char>) -> Seq<char> {
    if is_absolute(p) {
        p
    } else if base.len() == 0 || base.last() == '/' {
        base + p
    } else {
        base + seq!['/'] + p
    }
}

/// Names what `path_clean::clean` returns for a path: its lexical cleaning
/// (repeated separators, `.` and `..` components removed). It depends on the
/// path alone.
pub uninterp spec fn spec_clean_path(path: Seq<char>) -> Seq<char>;

/// Names what `std::path::Path::parent` returns for a path: the path without
/// its final component, or nothing when the path ends in a root or is empty.
pub uninterp spec fn spec_path_parent(path: Seq<char>) -> Option<Seq<char>>;

/// Some component of `p` (a run between separators) is `.` or `..`.
pub open spec fn has_dot_component(p: Seq<char>) -> bool {
    exists|i: int|
        0 <= i < p.len() && (i == 0 || p[i - 1] == '/') && #[trigger] p[i] == '.' && (i + 1
            == p.len() || p[i + 1] == '/' || (p[i + 1] == '.' && (i + 2 == p.len() || p[i + 2]
            == '/')))
}

/// Calls `path_clean::clean`; the result is named `spec_clean_path` of the
/// argument. Beyond the name, it claims what the crate documents and its
/// source shows: a rooted path stays rooted and keeps no `.` or `..`
/// component, and cleaning the result again leaves it as it is.
#[verifier::external_body]
pub(crate) fn clean_path(path: &str) -> (res: String)
    ensures
        res@ == spec_clean_path(path@),
        is_absolute(path@) ==> is_absolute(res@) && !has_dot_component(res@),
        spec_clean_path(res@) == res@,
{
    path_clean::clean(path).to_string_lossy().into_owned()
}

/// Calls `std::path::Path::parent`; the result is named `spec_path_parent`
/// of the argument. Nothing else is claimed of it.
#[verifier::external_body]
pub(crate) fn path_parent(path: &str) -> (res: Option<String>)
    ensures
        match res {
            Some(p) => spec_path_parent(path@) == Some(p@),
            None => spec_path_parent(path@) is None,
        },
{
    match std::path::Path::new(path).parent() {
        Some(p) => Some(p.to_string_lossy().into_owned()),
        None => None,
    }
}

/// Decides `is_absolute`.
pub fn path_is_absolute(p: &str) -> (r: bool)
    ensures
        r == is_absolute(p@),
{
    let n = p.unicode_len();
    n > 0 && p.get_char(0) == '/'
}

/// `Path::join` on Unix; see `join`.
pub fn join_path(base: &str, p: &str) -> (r: String)
    ensures
        r@ == join(base@, p@),
{
    if path_is_absolute(p) {
        return p.to_owned();
    }
    let n = base.unicode_len();
    let mut r = base.to_owned();
    if n == 0 || base.get_char(n - 1) == '/' {
        r.append(p);
        assert(r@ =~= base@ + p@);
    } else {
        proof {
            reveal_strlit("/");
        }
        r.append("/");
        r.append(p);
        assert(r@ =~= base@ + seq!['/'] + p@);
    }
    r
}

/// Why a profile path was refused.
#[derive(Clone, Copy, Debug, PartialEq, Eq)]
pub enum PathError {
    /// A `~` that is neither the whole path nor followed by a separator,
    /// such as `~someone/task`.
    UnsupportedHomePath,
}

/// Home expansion of a profile path: `~` alone is the home directory, `~/`
/// (or `~\`) followed by the rest is the rest joined onto the home
/// directory, any other leading `~` is refused, and every other path stays
/// as it is.
pub open spec fn expand_home(p: Seq<char>, home: Seq<char>) -> Option<Seq<char>> {
    if p == seq!['~'] {
        Some(home)
    } else if starts_with(p, seq!['~', '/']) || starts_with(p, seq!['~', '\\']) {
        Some(join(home, p.skip(2)))
    } else if p.len() > 0 && p[0] == '~' {
        None
    } else {
        Some(p)
    }
}

/// A path made absolute against `base`: an absolute path stays, a relative
/// one is joined onto `base`.
pub open spec fn absolutize(p: Seq<char>, base: Seq<char>) -> Seq<char> {
    if is_absolute(p) {
        p
    } else {
        join(base, p)
    }
}

/// What a profile path resolves to: home-expanded, made absolute against the
/// configuration directory, then cleaned; nothing where expansion refuses it.
pub open spec fn spec_resolve_path(p: Seq<char>, base: Seq<char>, home: Seq<char>) -> Option<
    Seq<char>,
> {
    match expand_home(p, home) {
        Some(e) => Some(spec_clean_path(absolutize(e, base))),
        None => None,
    }
}

/// Resolves a profile path against the configuration directory `base_dir`
/// and the home directory `home_dir`.
pub fn resolve_path(path: &str, base_dir: &str, home_dir: &str) -> (res: Result<String, PathError>)
    ensures
        match res {
            Ok(r) => {
                &&& spec_resolve_path(path@, base_dir@, home_dir@) == Some(r@)
                &&& is_absolute(base_dir@) && is_absolute(home_dir@) ==> {
                    &&& is_absolute(r@)
                    &&& !has_dot_component(r@)
                    &&& forall|b: Seq<char>, h: Seq<char>|
                        #[trigger] spec_resolve_path(r@, b, h) == Some(r@)
                }
            },
            Err(e) => spec_resolve_path(path@, base_dir@, home_dir@) is None && e
                == PathError::UnsupportedHomePath,
        },
{
    proof {
        reveal_strlit("~");
        reveal_strlit("~/");
        reveal_strlit("~\\");
    }
    assert("~"@ =~= seq!['~']);
    assert("~/"@ =~= seq!['~', '/']);
    assert("~\\"@ =~= seq!['~', '\\']);
    let expanded: String;
    if text_eq(path, "~") {
        expanded = home_dir.to_owned();
    } else if text_starts_with(path, "~/") || text_starts_with(path, "~\\") {
        let n = path.unicode_len();
        let remainder = path.substring_char(2, n);
        assert(remainder@ == path@.skip(2));
        expanded = join_path(home_dir, remainder);
    } else if path.unicode_len() > 0 && path.get_char(0) == '~' {
        return Err(PathError::UnsupportedHomePath);
    } else {
        expanded = path.to_owned();
    }
    proof {
        lemma_join_keeps_absolute(home_dir@, path@.skip(2));
        lemma_join_keeps_absolute(base_dir@, expanded@);
    }
    let absolute = if path_is_absolute(expanded.as_str()) {
        expanded
    } else {
        join_path(base_dir, expanded.as_str())
    };
    let cleaned = clean_path(absolute.as_str());
    proof {
        assert forall|b: Seq<char>, h: Seq<char>| is_absolute(cleaned@) implies #[trigger] spec_resolve_path(
            cleaned@,
            b,
            h,
        ) == Some(cleaned@) by {
            law_resolution_anchors(cleaned@, b, h);
        }
    }
    Ok(cleaned)
}

/// Joining anything onto an absolute path gives an absolute path.
pub proof fn lemma_join_keeps_absolute(base: Seq<char>, p: Seq<char>)
    ensures
        is_absolute(base) ==> is_absolute(join(base, p)),
{
    if is_absolute(base) && !is_absolute(p) {
        if base.len() == 0 || base.last() == '/' {
            assert((base + p)[0] == base[0]);
        } else {
            assert((base + seq!['/'] + p)[0] == base[0]);
        }
    }
}

/// A path made absolute against the current directory and cleaned; nothing
/// when the path is relative and the current directory is unknown.
pub open spec fn spec_absolute_path(p: Seq<char>, current_dir: Option<Seq<char>>) -> Option<
    Seq<char>,
> {
    if is_absolute(p) {
        Some(spec_clean_path(p))
    } else {
        match current_dir {
            Some(c) => Some(spec_clean_path(join(c, p))),
            None => None,
        }
    }
}

/// Makes `path` absolute against `current_dir` and cleans it. The current
/// directory is consulted only for a relative path.
pub fn absolute_path(path: &str, current_dir: Option<&str>) -> (res: Option<String>)
    ensures
        match res {
            Some(r) => {
                &&& spec_absolute_path(path@, opt_view(current_dir)) == Some(r@)
                &&& (is_absolute(path@) || (current_dir matches Some(c) && is_absolute(c@))) ==> (
                is_absolute(r@) && !has_dot_component(r@))
            },
            None => spec_absolute_path(path@, opt_view(current_dir)) is None,
        },
{
    if path_is_absolute(path) {
        Some(clean_path(path))
    } else {
        match current_dir {
            Some(c) => {
                proof {
                    lemma_join_keeps_absolute(c@, path@);
                }
                let joined = join_path(c, path);
                Some(clean_path(joined.as_str()))
            },
            None => None,
        }
    }
}

} // verus!

verus! {

/// An absolute profile path that does not start with `~` ignores the
/// configuration directory and the home directory: it is only cleaned. A
/// relative one is taken from the configuration directory.
pub proof fn law_resolution_anchors(p: Seq<char>, base: Seq<char>, home: Seq<char>)
    ensures
        is_absolute(p) ==> spec_resolve_path(p, base, home) == Some(spec_clean_path(p)),
        !is_absolute(p) && !(p.len() > 0 && p[0] == '~') ==> spec_resolve_path(p, base, home)
            == Some(spec_clean_path(join(base, p))),
        p == seq!['~'] && is_absolute(home) ==> spec_resolve_path(p, base, home) == Some(
            spec_clean_path(home),
        ),
{
    if is_absolute(p) {
        assert(p != seq!['~']);
        assert(!starts_with(p, seq!['~', '/'])) by {
            if starts_with(p, seq!['~', '/']) {
                assert(p.subrange(0, 2)[0] == p[0]);
            }
        }
        assert(!starts_with(p, seq!['~', '\\'])) by {
            if starts_with(p, seq!['~', '\\']) {
                assert(p.subrange(0, 2)[0] == p[0]);
            }
        }
    }
    if !(p.len() > 0 && p[0] == '~') {
        assert(p != seq!['~']);
        assert(!starts_with(p, seq!['~', '/'])) by {
            if starts_with(p, seq!['~', '/']) {
                assert(p.subrange(0, 2)[0] == p[0]);
            }
        }
        assert(!starts_with(p, seq!['~', '\\'])) by {
            if starts_with(p, seq!['~', '\\']) {
                assert(p.subrange(0, 2)[0] == p[0]);
            }
        }
    }
}

} // verus!
