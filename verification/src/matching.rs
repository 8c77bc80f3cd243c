//! File-name patterns of the form `<prefix>*<suffix>` and the selection of
//! the release asset, or the installed file, that matches one.

use vstd::prelude::*;
use vstd::string::*;
use crate::scan::{first_where, lemma_first_where_at, lemma_first_where_none};
use crate::strutil::{str_ends_with, str_starts_with};
use crate::types::{APIResult, Mod, ReleaseData};

verus! {

/// A well-formed pattern holds exactly one `*`.
pub open spec fn wf_pattern(p: Seq<char>) -> bool {
    &&& exists|i: int| 0 <= i < p.len() && p[i] == '*'
    &&& forall|i: int, j: int|
        0 <= i < p.len() && 0 <= j < p.len() && p[i] == '*' && p[j] == '*' ==> i == j
}

/// The position of a well-formed pattern's single `*`.
pub open spec fn star_at(p: Seq<char>) -> int {
    choose|i: int| 0 <= i < p.len() && p[i] == '*'
}

/// The literal text before the `*`: the required file-name prefix.
pub open spec fn pattern_prefix(p: Seq<char>) -> Seq<char> {
    p.take(star_at(p))
}

/// The literal text after the `*`: the required file-name suffix.
pub open spec fn pattern_suffix(p: Seq<char>) -> Seq<char> {
    p.skip(star_at(p) + 1)
}

/// A file name matches a pattern exactly when it starts with the pattern's
/// prefix and ends with its suffix.
pub open spec fn pattern_matches(p: Seq<char>, name: Seq<char>) -> bool {
    pattern_prefix(p).is_prefix_of(name) && pattern_suffix(p).is_suffix_of(name)
}

/// Splits a pattern at its single `*` into its prefix and suffix; reports
/// a pattern without exactly one `*` as malformed.  Callers that must meet
/// [`wf_pattern`] before using the matcher can establish it with this check.
pub fn split_pattern(p: &str) -> (r: Option<(String, String)>)
    ensures
        r is Some <==> wf_pattern(p@),
        r matches Some(pair) ==> pair.0@ == pattern_prefix(p@) && pair.1@ == pattern_suffix(p@),
{
    let n = p.unicode_len();
    let mut i: usize = 0;
    let mut star: Option<usize> = None;
    while i < n
        invariant
            n == p@.len(),
            i <= n,
            star matches Some(k) ==> 0 <= k < i && p@[k as int] == '*' && forall|j: int|
                0 <= j < i && j != k ==> p@[j] != '*',
            star is None ==> forall|j: int| 0 <= j < i ==> p@[j] != '*',
        decreases n - i,
    {
        let c = p.get_char(i);
        if c == '*' {
            match star {
                None => {
                    star = Some(i);
                },
                Some(k) => {
                    proof {
                        assert(p@[k as int] == '*' && p@[i as int] == '*' && k as int != i as int);
                        assert(!wf_pattern(p@));
                    }
                    return None;
                },
            }
        }
        i += 1;
    }
    match star {
        None => {
            proof {
                assert(!wf_pattern(p@));
            }
            None
        },
        Some(k) => {
            proof {
                assert(wf_pattern(p@));
                assert(star_at(p@) == k as int) by {
                    let k2 = star_at(p@);
                    assert(0 <= k2 < p@.len() && p@[k2] == '*');
                }
            }
            let pre = p.substring_char(0, k);
            let suf = p.substring_char(k + 1, n);
            Some((String::from_str(pre), String::from_str(suf)))
        },
    }
}

/// Whether `name` matches the pattern `pattern`, by the prefix/suffix rule.
pub fn asset_matches(pattern: &str, name: &str) -> (b: bool)
    requires
        wf_pattern(pattern@),
    ensures
        b == pattern_matches(pattern@, name@),
{
    match split_pattern(pattern) {
        Some(pair) => {
            let b1 = str_starts_with(name, pair.0.as_str());
            let b2 = str_ends_with(name, pair.1.as_str());
            b1 && b2
        },
        None => {
            proof {
                assert(false);
            }
            false
        },
    }
}

/// The predicate an asset must satisfy: its file name matches the pattern.
pub open spec fn asset_name_matches(p: Seq<char>) -> spec_fn(ReleaseData) -> bool {
    |a: ReleaseData| pattern_matches(p, a.name@)
}

/// The index of the first release asset whose name matches the pattern.
pub open spec fn first_asset_index(p: Seq<char>, assets: Seq<ReleaseData>) -> Option<int> {
    first_where(assets, asset_name_matches(p))
}

/// Scans the release's assets in order and returns the first whose file name
/// matches the mod's pattern; reports, naming the mod, when none matches.
pub fn find_matching_asset(api: &APIResult, mod_data: &Mod) -> (r: Result<ReleaseData, String>)
    requires
        mod_data.wf(),
    ensures
        r is Ok <==> first_asset_index(mod_data.pattern@, api.assets@) is Some,
        r matches Ok(a) ==> exists|i: int|
            first_asset_index(mod_data.pattern@, api.assets@) == Some(i)
            && 0 <= i < api.assets@.len() && a == api.assets@[i],
        r matches Err(m) ==> m@ == "Skipping "@ + mod_data.name@
            + ": no file in the latest release matches the pattern."@,
{
    let n = api.assets.len();
    let mut i: usize = 0;
    while i < n
        invariant
            mod_data.wf(),
            n == api.assets@.len(),
            i <= n,
            forall|j: int| 0 <= j < i ==> !pattern_matches(mod_data.pattern@, api.assets@[j].name@),
        decreases n - i,
    {
        let a = &api.assets[i];
        if asset_matches(mod_data.pattern.as_str(), a.name.as_str()) {
            proof {
                lemma_first_where_at(
                    api.assets@,
                    asset_name_matches(mod_data.pattern@),
                    i as int,
                );
            }
            return Ok(a.clone());
        }
        i += 1;
    }
    proof {
        lemma_first_where_none(api.assets@, asset_name_matches(mod_data.pattern@));
    }
    Err(
        String::from_str("Skipping ").concat(mod_data.name.as_str()).concat(
            ": no file in the latest release matches the pattern.",
        ),
    )
}

/// The predicate an installed file must satisfy: its name matches the pattern.
pub open spec fn old_name_matches(p: Seq<char>) -> spec_fn(String) -> bool {
    |n: String| pattern_matches(p, n@)
}

/// The first file name in `names` (the installed files, in listing order)
/// that matches the pattern: the stale copy an update should delete.
pub fn find_old_file(names: &Vec<String>, pattern: &str) -> (r: Option<String>)
    requires
        wf_pattern(pattern@),
    ensures
        match first_where(names@, old_name_matches(pattern@)) {
            Some(i) => r matches Some(n) && 0 <= i < names@.len() && n == names@[i],
            None => r is None,
        },
{
    let ln = names.len();
    let mut i: usize = 0;
    while i < ln
        invariant
            wf_pattern(pattern@),
            ln == names@.len(),
            i <= ln,
            forall|j: int| 0 <= j < i ==> !pattern_matches(pattern@, names@[j]@),
        decreases ln - i,
    {
        if asset_matches(pattern, names[i].as_str()) {
            proof {
                lemma_first_where_at(names@, old_name_matches(pattern@), i as int);
            }
            return Some(names[i].clone());
        }
        i += 1;
    }
    proof {
        lemma_first_where_none(names@, old_name_matches(pattern@));
    }
    None
}

} // verus!
