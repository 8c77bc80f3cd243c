//! Splitting a path-like string at its last separator: the directory part
//! and the final segment.

use vstd::prelude::*;
use vstd::string::*;
use crate::types::ParsedPath;

verus! {

/// `i` is the position of the last occurrence of `sep` in `s`.
pub open spec fn is_last_sep(s: Seq<char>, sep: char, i: int) -> bool {
    &&& 0 <= i < s.len()
    &&& s[i] == sep
    &&& forall|j: int| i < j < s.len() ==> s[j] != sep
}

/// The position of the last occurrence of `sep` in `s`, when there is one.
pub open spec fn last_sep_at(s: Seq<char>, sep: char) -> int {
    choose|i: int| is_last_sep(s, sep, i)
}

/// Everything before the last `sep`, or the empty string when `s` has no
/// `sep` at all.
pub open spec fn dir_part(s: Seq<char>, sep: char) -> Seq<char> {
    if exists|i: int| is_last_sep(s, sep, i) {
        s.take(last_sep_at(s, sep))
    } else {
        Seq::<char>::empty()
    }
}

/// Everything after the last `sep`, or all of `s` when it has no `sep`.
pub open spec fn file_part(s: Seq<char>, sep: char) -> Seq<char> {
    if exists|i: int| is_last_sep(s, sep, i) {
        s.skip(last_sep_at(s, sep) + 1)
    } else {
        s
    }
}

/// Splits `s` at the last occurrence of `sep` into the directory part and
/// the final segment; a string without `sep` is all final segment.
pub fn split_on_last(s: &str, sep: char) -> (r: ParsedPath)
    ensures
        r.path@ == dir_part(s@, sep),
        r.file_name@ == file_part(s@, sep),
{
    let n = s.unicode_len();
    let mut i: usize = 0;
    let mut last: Option<usize> = None;
    while i < n
        invariant
            n == s@.len(),
            i <= n,
            last matches Some(k) ==> 0 <= k < i && s@[k as int] == sep && forall|j: int|
                (k as int) < j < i ==> s@[j] != sep,
            last is None ==> forall|j: int| 0 <= j < i ==> s@[j] != sep,
        decreases n - i,
    {
        if s.get_char(i) == sep {
            last = Some(i);
        }
        i += 1;
    }
    match last {
        None => {
            proof {
                assert(forall|k: int| !is_last_sep(s@, sep, k));
            }
            ParsedPath { path: String::new(), file_name: String::from_str(s) }
        },
        Some(k) => {
            proof {
                assert(is_last_sep(s@, sep, k as int));
                assert(last_sep_at(s@, sep) == k as int) by {
                    let k2 = last_sep_at(s@, sep);
                    assert(is_last_sep(s@, sep, k2));
                }
            }
            ParsedPath {
                path: String::from_str(s.substring_char(0, k)),
                file_name: String::from_str(s.substring_char(k + 1, n)),
            }
        },
    }
}

/// Splits a backslash-separated path into its directory part and its file
/// name; a string without a backslash is all file name.
pub fn parse_path(path: &str) -> (r: ParsedPath)
    ensures
        r.path@ == dir_part(path@, '\\'),
        r.file_name@ == file_part(path@, '\\'),
{
    split_on_last(path, '\\')
}

/// The final path segment of a download URL: the file name an update run
/// installs the fetched asset under.
pub fn url_file_name(url: &str) -> (r: String)
    ensures
        r@ == file_part(url@, '/'),
{
    let parsed = split_on_last(url, '/');
    parsed.file_name
}

} // verus!
