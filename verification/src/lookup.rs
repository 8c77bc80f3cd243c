//! Locating a mod group in the configuration by exact name.

use vstd::prelude::*;
use vstd::string::*;
use crate::scan::{first_where, lemma_first_where_at, lemma_first_where_none};
use crate::types::{MMUConfig, ModGroup};

verus! {

/// The predicate a group must satisfy: its name equals the queried name,
/// character for character.
pub open spec fn name_is(term: Seq<char>) -> spec_fn(ModGroup) -> bool {
    |g: ModGroup| g.name@ == term
}

/// The index of the first group whose name equals the queried name.
pub open spec fn first_group_index(groups: Seq<ModGroup>, term: Seq<char>) -> Option<int> {
    first_where(groups, name_is(term))
}

/// Scans the configuration's groups in declared order and returns a copy of
/// the first whose name equals `term` exactly (case-sensitive, no trimming);
/// reports, naming the exact queried string, when no group matches.
pub fn search(mods: &MMUConfig, term: String) -> (r: Result<ModGroup, String>)
    ensures
        r is Ok <==> first_group_index(mods.mods@, term@) is Some,
        r matches Ok(g) ==> exists|i: int|
            first_group_index(mods.mods@, term@) == Some(i)
            && 0 <= i < mods.mods@.len()
            && g.name == mods.mods@[i].name
            && g.mods@ == mods.mods@[i].mods@
            && g.location == mods.mods@[i].location,
        r matches Err(m) ==> m@ == "Could not find '"@ + term@ + "'"@,
{
    let n = mods.mods.len();
    let mut i: usize = 0;
    while i < n
        invariant
            n == mods.mods@.len(),
            i <= n,
            forall|j: int| 0 <= j < i ==> mods.mods@[j].name@ != term@,
        decreases n - i,
    {
        let g = &mods.mods[i];
        if g.name == term {
            proof {
                lemma_first_where_at(mods.mods@, name_is(term@), i as int);
            }
            return Ok(g.clone());
        }
        i += 1;
    }
    proof {
        lemma_first_where_none(mods.mods@, name_is(term@));
    }
    Err(String::from_str("Could not find '").concat(term.as_str()).concat("'"))
}

/// Group lookup is a pure function of the configuration and the queried
/// name: equal inputs select the same group index (or the same absence of
/// one), so two runs of [`search`] on equal inputs return the same group or
/// the same not-found report.
pub proof fn lemma_lookup_pure(
    groups1: Seq<ModGroup>,
    groups2: Seq<ModGroup>,
    term1: Seq<char>,
    term2: Seq<char>,
)
    requires
        groups1 == groups2,
        term1 == term2,
    ensures
        first_group_index(groups1, term1) == first_group_index(groups2, term2),
{
}

} // verus!
