//! Reading a git remote URL: its host, the base URL of its hosting service and
//! its project path.
//!
//! Two shapes are read: the scheme shape `scheme://host/path` and the
//! `user@host:path` shape of ssh remotes.

use crate::error::Error;
use crate::text::{ends_with, find_from, find_str_from, lemma_find_from, lemma_find_from_agree,
    lemma_find_from_first, occurs_at};
use vstd::prelude::*;

verus! {

/// Where the host of a scheme-shaped remote starts and ends: after the first
/// `://`, up to the next `/` or the end. The host is not empty.
pub open spec fn scheme_layout(u: Seq<char>) -> Option<(int, int)> {
    match find_from(u, "://"@, 0) {
        Some(i) => {
            let hs = i + "://"@.len();
            let he = match find_from(u, "/"@, hs) {
                Some(j) => j,
                None => u.len() as int,
            };
            if he > hs {
                Some((hs, he))
            } else {
                None
            }
        },
        None => None,
    }
}

/// Where the host of a `user@host:path` remote starts and ends: after the
/// first `@`, up to the next `:`. The host is not empty and holds no `/`.
pub open spec fn scp_layout(u: Seq<char>) -> Option<(int, int)> {
    match find_from(u, "@"@, 0) {
        Some(a) => match find_from(u, ":"@, a + 1) {
            Some(c) => {
                let slash_free = match find_from(u, "/"@, a + 1) {
                    Some(s) => s > c,
                    None => true,
                };
                if c > a + 1 && slash_free {
                    Some((a + 1, c))
                } else {
                    None
                }
            },
            None => None,
        },
        None => None,
    }
}

/// The host span of a remote: the scheme shape when the URL holds `://`,
/// the `user@host:path` shape otherwise.
pub open spec fn remote_layout(u: Seq<char>) -> Option<(int, int)> {
    if find_from(u, "://"@, 0) is Some {
        scheme_layout(u)
    } else {
        scp_layout(u)
    }
}

/// The host of a remote.
pub open spec fn host_of(u: Seq<char>) -> Option<Seq<char>> {
    match remote_layout(u) {
        Some((hs, he)) => Some(u.subrange(hs, he)),
        None => None,
    }
}

/// The base URL of the hosting service: scheme and host for the scheme shape,
/// `https://` and host for the `user@host:path` shape.
pub open spec fn base_url_of(u: Seq<char>) -> Option<Seq<char>> {
    match remote_layout(u) {
        Some((hs, he)) => if find_from(u, "://"@, 0) is Some {
            Some(u.subrange(0, he))
        } else {
            Some("https://"@ + u.subrange(hs, he))
        },
        None => None,
    }
}

/// A path without one trailing `/` and then without a trailing `.git`.
pub open spec fn trim_path(p: Seq<char>) -> Seq<char> {
    let p1 = if p.len() > 0 && p.last() == '/' {
        p.drop_last()
    } else {
        p
    };
    if ends_with(p1, ".git"@) {
        p1.subrange(0, p1.len() - ".git"@.len())
    } else {
        p1
    }
}

/// The project path of a remote: what follows the host's separator, trimmed;
/// it holds every inner `/` and is not empty.
pub open spec fn project_path_of(u: Seq<char>) -> Option<Seq<char>> {
    match remote_layout(u) {
        Some((hs, he)) => if he < u.len() && trim_path(u.subrange(he + 1, u.len() as int)).len()
            > 0 {
            Some(trim_path(u.subrange(he + 1, u.len() as int)))
        } else {
            None
        },
        None => None,
    }
}

/// The canonical scheme-shaped remote for a base URL and a project path.
pub open spec fn canonical_remote(base: Seq<char>, path: Seq<char>) -> Seq<char> {
    base + "/"@ + path + ".git"@
}

/// A non-empty path followed by `.git` trims back to the path.
proof fn lemma_trim_git_suffix(p: Seq<char>)
    requires
        p.len() > 0,
    ensures
        trim_path(p + ".git"@) == p,
{
    reveal_strlit(".git");
    let q = p + ".git"@;
    assert(q.last() == 't');
    assert(q.subrange(q.len() - 4, q.len() as int) =~= ".git"@);
    assert(q.subrange(0, q.len() - 4) =~= p);
}

/// A remote's base URL and project path, put back together as the canonical
/// remote `base/path.git`, give that same base URL and project path again:
/// for scheme-shaped and `user@host:path` remotes, with or without `.git` and
/// a trailing `/`.
pub proof fn lemma_canonical_remote_stable(u: Seq<char>, b: Seq<char>, p: Seq<char>)
    requires
        base_url_of(u) == Some(b),
        project_path_of(u) == Some(p),
    ensures
        base_url_of(canonical_remote(b, p)) == Some(b),
        project_path_of(canonical_remote(b, p)) == Some(p),
{
    reveal_strlit("://");
    reveal_strlit("/");
    reveal_strlit("@");
    reveal_strlit(":");
    reveal_strlit("https://");
    let c = canonical_remote(b, p);
    lemma_trim_git_suffix(p);
    lemma_find_from(u, "://"@, 0);
    if find_from(u, "://"@, 0) is Some {
        let i = find_from(u, "://"@, 0)->0;
        let hs = i + 3;
        lemma_find_from(u, "/"@, hs);
        let he = find_from(u, "/"@, hs)->0;
        assert(b == u.subrange(0, he));
        assert(u.subrange(0, i + 3) =~= c.subrange(0, i + 3));
        lemma_find_from_agree(u, c, "://"@, 0, i);
        assert(u.subrange(hs, he + 1) =~= c.subrange(hs, he + 1)) by {
            assert(u.subrange(he, he + 1)[0] == u[he]);
        }
        lemma_find_from_agree(u, c, "/"@, hs, he);
        assert(c.subrange(0, he) =~= b);
        assert(c.subrange(he + 1, c.len() as int) =~= p + ".git"@);
    } else {
        lemma_find_from(u, "@"@, 0);
        let a = find_from(u, "@"@, 0)->0;
        lemma_find_from(u, ":"@, a + 1);
        let cc = find_from(u, ":"@, a + 1)->0;
        lemma_find_from(u, "/"@, a + 1);
        let host = u.subrange(a + 1, cc);
        assert(b == "https://"@ + host);
        assert(c.subrange(0, 8) =~= "https://"@);
        assert(c.subrange(5, 8) =~= "://"@);
        assert forall|j: int| 0 <= j < 5 implies !#[trigger] occurs_at(c, "://"@, j) by {
            assert(c.subrange(j, j + 3)[0] == c[j]);
            assert(c[j] == "https://"@[j]);
        }
        lemma_find_from_first(c, "://"@, 0, 5);
        let he: int = 8 + host.len() as int;
        assert(c.subrange(he, he + 1) =~= "/"@);
        assert(cc > a + 1);
        assert(find_from(u, "/"@, a + 1) matches Some(sl) ==> sl > cc);
        assert forall|j: int| 8 <= j < he implies !#[trigger] occurs_at(c, "/"@, j) by {
            let k = a + 1 + (j - 8);
            assert(c[j] == b[j]);
            assert(b[j] == host[j - 8]);
            assert(host[j - 8] == u[k]);
            assert(!occurs_at(u, "/"@, k));
            if u[k] == '/' {
                assert(u.subrange(k, k + 1) =~= "/"@);
            }
            assert(c.subrange(j, j + 1)[0] == c[j]);
        }
        lemma_find_from_first(c, "/"@, 8, he);
        assert(c.subrange(0, he) =~= b);
        assert(c.subrange(he + 1, c.len() as int) =~= p + ".git"@);
    }
}

/// The host span of a remote URL, as `remote_layout` gives it.
fn layout(url: &str) -> (r: Option<(usize, usize)>)
    ensures
        match r {
            Some((hs, he)) => remote_layout(url@) == Some((hs as int, he as int)),
            None => remote_layout(url@) is None,
        },
        r matches Some((hs, he)) ==> hs < he <= url@.len(),
{
    proof {
        reveal_strlit("://");
        reveal_strlit("/");
        reveal_strlit("@");
        reveal_strlit(":");
        lemma_find_from(url@, "://"@, 0);
        lemma_find_from(url@, "@"@, 0);
    }
    let n = url.unicode_len();
    match find_str_from(url, "://", 0) {
        Some(i) => {
            let hs = i + 3;
            let he = match find_str_from(url, "/", hs) {
                Some(j) => {
                    proof {
                        lemma_find_from(url@, "/"@, hs as int);
                    }
                    j
                },
                None => n,
            };
            if he > hs {
                Some((hs, he))
            } else {
                None
            }
        },
        None => match find_str_from(url, "@", 0) {
            Some(a) => match find_str_from(url, ":", a + 1) {
                Some(c) => {
                    proof {
                        lemma_find_from(url@, ":"@, a + 1);
                    }
                    let slash_free = match find_str_from(url, "/", a + 1) {
                        Some(s) => s > c,
                        None => true,
                    };
                    if c > a + 1 && slash_free {
                        Some((a + 1, c))
                    } else {
                        None
                    }
                },
                None => None,
            },
            None => None,
        },
    }
}

/// The host of a remote URL, in either shape.
pub fn remote_host(url: &str) -> (r: Option<&str>)
    ensures
        match r {
            Some(h) => host_of(url@) == Some(h@),
            None => host_of(url@) is None,
        },
{
    match layout(url) {
        Some((hs, he)) => Some(url.substring_char(hs, he)),
        None => None,
    }
}

/// The base URL of the hosting service behind a remote.
pub fn extract_base_url(url: &str) -> (r: Result<String, Error>)
    ensures
        match base_url_of(url@) {
            Some(b) => r matches Ok(s) && s@ == b,
            None => r matches Err(Error::ExtractionFailed { remote_url }) && remote_url@ == url@,
        },
{
    match layout(url) {
        Some((hs, he)) => {
            if find_str_from(url, "://", 0).is_some() {
                Ok(String::from_str(url.substring_char(0, he)))
            } else {
                let mut s = String::from_str("https://");
                s.append(url.substring_char(hs, he));
                Ok(s)
            }
        },
        None => Err(Error::ExtractionFailed { remote_url: String::from_str(url) }),
    }
}

/// A path without one trailing `/` and then without a trailing `.git`.
fn trimmed_path(p: &str) -> (r: &str)
    ensures
        r@ == trim_path(p@),
{
    proof {
        reveal_strlit("/");
        reveal_strlit(".git");
    }
    let n = p.unicode_len();
    let p1 = if n > 0 && p.get_char(n - 1) == '/' {
        assert(p@.drop_last() =~= p@.subrange(0, n - 1));
        p.substring_char(0, n - 1)
    } else {
        assert(p@ =~= p@.subrange(0, n as int));
        p.substring_char(0, n)
    };
    let m = p1.unicode_len();
    if crate::text::ends_with_str(p1, ".git") {
        p1.substring_char(0, m - 4)
    } else {
        p1
    }
}

/// The project path of a remote, with its inner `/` kept and the trailing
/// `.git` and `/` taken off.
pub fn extract_project_path(url: &str) -> (r: Result<String, Error>)
    ensures
        match project_path_of(url@) {
            Some(p) => r matches Ok(s) && s@ == p,
            None => r matches Err(Error::ExtractionFailed { remote_url }) && remote_url@ == url@,
        },
{
    let n = url.unicode_len();
    match layout(url) {
        Some((hs, he)) => {
            if he < n {
                let p = trimmed_path(url.substring_char(he + 1, n));
                if p.unicode_len() > 0 {
                    return Ok(String::from_str(p));
                }
            }
            Err(Error::ExtractionFailed { remote_url: String::from_str(url) })
        },
        None => Err(Error::ExtractionFailed { remote_url: String::from_str(url) }),
    }
}

} // verus!
