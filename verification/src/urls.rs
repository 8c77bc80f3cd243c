//! Repository links and the releases-API URL derived from them.
//!
//! A valid link has the exact shape `https://github.com/<owner>/<repo>`,
//! where owner and repo are non-empty runs of ASCII letters and hyphens; the
//! match must span the whole string, so extra path segments, queries or a
//! trailing slash are all rejected.

use vstd::prelude::*;
use vstd::string::*;
use crate::strutil::str_starts_with;

verus! {

/// The fixed scheme-and-host prefix of a repository link.
pub open spec fn gh_prefix() -> Seq<char> {
    "https://github.com/"@
}

/// A character allowed in an owner or repository segment: an ASCII letter
/// or a hyphen.
pub open spec fn repo_char(c: char) -> bool {
    ||| ('a' as u32 <= c as u32 && c as u32 <= 'z' as u32)
    ||| ('A' as u32 <= c as u32 && c as u32 <= 'Z' as u32)
    ||| c == '-'
}

/// `k` is the position of the slash between a non-empty owner segment and a
/// non-empty repository segment, both made of allowed characters only.
pub open spec fn valid_mid(s: Seq<char>, k: int) -> bool {
    &&& gh_prefix().len() < k < s.len() - 1
    &&& s[k] == '/'
    &&& forall|i: int| gh_prefix().len() <= i < k ==> repo_char(s[i])
    &&& forall|i: int| k < i < s.len() ==> repo_char(s[i])
}

/// `s` is exactly `https://github.com/<owner>/<repo>`.
pub open spec fn is_repo_url(s: Seq<char>) -> bool {
    &&& gh_prefix().is_prefix_of(s)
    &&& exists|k: int| valid_mid(s, k)
}

/// The position of the slash between owner and repository.
pub open spec fn mid_of(s: Seq<char>) -> int {
    choose|k: int| valid_mid(s, k)
}

/// The owner segment of a valid repository link.
pub open spec fn owner_of(s: Seq<char>) -> Seq<char> {
    s.subrange(gh_prefix().len() as int, mid_of(s))
}

/// The repository segment of a valid repository link.
pub open spec fn repo_of(s: Seq<char>) -> Seq<char> {
    s.subrange(mid_of(s) + 1, s.len() as int)
}

/// The releases-API endpoint derived from a valid repository link.
pub open spec fn api_url_of(s: Seq<char>) -> Seq<char> {
    "https://api.github.com/repos/"@ + owner_of(s) + "/"@ + repo_of(s) + "/releases/latest"@
}

/// The slash between owner and repository sits at one position only.
pub proof fn lemma_mid_unique(s: Seq<char>, k1: int, k2: int)
    requires
        valid_mid(s, k1),
        valid_mid(s, k2),
    ensures
        k1 == k2,
{
    if k1 < k2 {
        assert(repo_char(s[k2]));
        assert(false);
    }
    if k2 < k1 {
        assert(repo_char(s[k1]));
        assert(false);
    }
}

/// Validates a repository link and derives its releases-API URL.  A link of
/// the exact shape `https://github.com/<owner>/<repo>` yields
/// `https://api.github.com/repos/<owner>/<repo>/releases/latest`; any other
/// string yields the empty string, the caller's signal to skip the mod.
pub fn build_github_url(url: String) -> (r: String)
    ensures
        is_repo_url(url@) ==> r@ == api_url_of(url@),
        !is_repo_url(url@) ==> r@.len() == 0,
{
    let prefix = "https://github.com/";
    let n = url.as_str().unicode_len();
    let pn = prefix.unicode_len();
    if !str_starts_with(url.as_str(), prefix) {
        return String::new();
    }
    let mut i: usize = pn;
    let mut slash: Option<usize> = None;
    while i < n
        invariant
            n == url@.len(),
            pn == gh_prefix().len(),
            pn <= i <= n,
            gh_prefix().is_prefix_of(url@),
            slash matches Some(k) ==> pn <= k < i && url@[k as int] == '/' && forall|j: int|
                pn <= j < i && j != k ==> repo_char(url@[j]),
            slash is None ==> forall|j: int| pn <= j < i ==> repo_char(url@[j]),
        decreases n - i,
    {
        let c = url.as_str().get_char(i);
        if c == '/' {
            match slash {
                None => {
                    slash = Some(i);
                },
                Some(k) => {
                    proof {
                        assert forall|k2: int| !valid_mid(url@, k2) by {
                            if valid_mid(url@, k2) {
                                if k2 == k as int {
                                    assert(repo_char(url@[i as int]));
                                } else {
                                    assert(repo_char(url@[k as int]));
                                }
                            }
                        }
                    }
                    return String::new();
                },
            }
        } else if !is_repo_char(c) {
            proof {
                assert forall|k2: int| !valid_mid(url@, k2) by {
                    if valid_mid(url@, k2) {
                        assert(repo_char(url@[i as int]));
                    }
                }
            }
            return String::new();
        }
        i += 1;
    }
    match slash {
        None => {
            proof {
                assert forall|k2: int| !valid_mid(url@, k2) by {
                    if valid_mid(url@, k2) {
                        assert(repo_char(url@[k2]));
                    }
                }
            }
            String::new()
        },
        Some(k) => {
            if k == pn || k + 1 == n {
                proof {
                    assert forall|k2: int| !valid_mid(url@, k2) by {
                        if valid_mid(url@, k2) {
                            if k2 != k as int {
                                assert(repo_char(url@[k as int]));
                            }
                        }
                    }
                }
                return String::new();
            }
            proof {
                assert(valid_mid(url@, k as int));
                assert(is_repo_url(url@));
                assert(mid_of(url@) == k as int) by {
                    let k2 = mid_of(url@);
                    assert(valid_mid(url@, k2));
                    lemma_mid_unique(url@, k2, k as int);
                }
            }
            let owner = url.as_str().substring_char(pn, k);
            let repo = url.as_str().substring_char(k + 1, n);
            let r = String::from_str("https://api.github.com/repos/").concat(owner).concat(
                "/",
            ).concat(repo).concat("/releases/latest");
            proof {
                assert(owner@ == owner_of(url@));
                assert(repo@ == repo_of(url@));
            }
            r
        },
    }
}

/// Whether `c` may appear in an owner or repository segment.
fn is_repo_char(c: char) -> (b: bool)
    ensures
        b == repo_char(c),
{
    ('a' as u32 <= c as u32 && c as u32 <= 'z' as u32)
        || ('A' as u32 <= c as u32 && c as u32 <= 'Z' as u32) || c == '-'
}

} // verus!
