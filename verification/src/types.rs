//! The data the update pipeline works on: mods, mod groups, the loaded
//! configuration, and the release metadata returned by the repository host.

use vstd::prelude::*;
use crate::matching::wf_pattern;

verus! {

/// A path split into its directory part and its final segment.
#[derive(Debug, PartialEq)]
pub struct ParsedPath {
    pub path: String,
    pub file_name: String,
}

/// One tracked artifact: a display name, a `<prefix>*<suffix>` file-name
/// pattern, and the repository link its releases come from.
#[derive(Debug, PartialEq)]
pub struct Mod {
    pub name: String,
    pub pattern: String,
    pub download_link: String,
}

impl Mod {
    /// The pattern invariant: the pattern holds exactly one `*`.
    pub open spec fn wf(&self) -> bool {
        wf_pattern(self.pattern@)
    }
}

impl Clone for Mod {
    fn clone(&self) -> (r: Self)
        ensures
            r == *self,
    {
        Mod {
            name: self.name.clone(),
            pattern: self.pattern.clone(),
            download_link: self.download_link.clone(),
        }
    }
}

/// A named collection of mods installed in one directory.
#[derive(Debug, PartialEq)]
pub struct ModGroup {
    pub name: String,
    pub mods: Vec<Mod>,
    pub location: String,
}

impl Clone for ModGroup {
    fn clone(&self) -> (r: Self)
        ensures
            r.name == self.name,
            r.mods@ == self.mods@,
            r.location == self.location,
    {
        let mut ms: Vec<Mod> = Vec::new();
        let mut i: usize = 0;
        while i < self.mods.len()
            invariant
                i <= self.mods.len(),
                ms@ =~= self.mods@.subrange(0, i as int),
            decreases self.mods.len() - i,
        {
            ms.push(self.mods[i].clone());
            i += 1;
        }
        proof {
            assert(ms@ =~= self.mods@);
        }
        ModGroup { name: self.name.clone(), mods: ms, location: self.location.clone() }
    }
}

/// The whole configuration: every declared mod group, in declared order.
#[derive(Debug, PartialEq)]
pub struct MMUConfig {
    pub mods: Vec<ModGroup>,
}

/// One downloadable file attached to a release, as the repository host
/// reports it.  `label` and `uploader` are documented by the host but never
/// populated here.
#[derive(Debug, PartialEq)]
pub struct ReleaseData {
    pub url: String,
    pub id: usize,
    pub node_id: String,
    pub name: String,
    pub label: String,
    pub uploader: String,
    pub content_type: String,
    pub state: String,
    pub size: usize,
    pub download_count: usize,
    pub created_at: String,
    pub updated_at: String,
    pub browser_download_url: String,
}

impl Clone for ReleaseData {
    fn clone(&self) -> (r: Self)
        ensures
            r == *self,
    {
        ReleaseData {
            url: self.url.clone(),
            id: self.id,
            node_id: self.node_id.clone(),
            name: self.name.clone(),
            label: self.label.clone(),
            uploader: self.uploader.clone(),
            content_type: self.content_type.clone(),
            state: self.state.clone(),
            size: self.size,
            download_count: self.download_count,
            created_at: self.created_at.clone(),
            updated_at: self.updated_at.clone(),
            browser_download_url: self.browser_download_url.clone(),
        }
    }
}

/// The metadata of one release: its tag and flags, and its assets in the
/// order the host lists them.  `author` is documented by the host but never
/// populated here.
#[derive(Debug, PartialEq)]
pub struct APIResult {
    pub url: String,
    pub assets_url: String,
    pub upload_url: String,
    pub html_url: String,
    pub id: usize,
    pub author: String,
    pub node_id: String,
    pub tag_name: String,
    pub target_commitish: String,
    pub name: String,
    pub draft: bool,
    pub prerelease: bool,
    pub created_at: String,
    pub published_at: String,
    pub assets: Vec<ReleaseData>,
    pub tarball_url: String,
    pub zipball_url: String,
    pub body: String,
}

} // verus!
