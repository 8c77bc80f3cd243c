//! The update run as a state machine.
//!
//! All the decisions of a group update live here, verified; the caller owns
//! the I/O.  For each mod the caller starts at [`ModState::Start`], performs
//! the work the current state asks for (fetch the release metadata, test
//! whether the target file exists, download the asset, list the install
//! directory), and feeds the result back through [`mod_step`] until the state
//! is [`ModState::Finished`].  Only a [`ModOutcome::Updated`] outcome asks
//! the caller to touch the file system: delete the old file, if one was
//! found, and write the fetched bytes under the new file name.  One mod's
//! failure never ends the group: the caller simply moves to the next mod.

use vstd::prelude::*;
use vstd::string::*;
use crate::matching::{find_matching_asset, find_old_file, first_asset_index, old_name_matches};
use crate::paths::{file_part, url_file_name};
use crate::scan::first_where;
use crate::types::{APIResult, Mod, ModGroup, ReleaseData};
use crate::urls::{api_url_of, build_github_url, is_repo_url};

verus! {

/// How one mod's update run ended.
#[derive(Debug, PartialEq)]
pub enum ModOutcome {
    /// The mod's repository link is not a valid repository URL; the mod is
    /// skipped and no network request is made for it.
    InvalidUrl,
    /// Fetching or decoding the release metadata failed; the mod is skipped.
    FetchFailed,
    /// No file in the latest release matches the mod's pattern; the mod is
    /// skipped.
    NoMatchingAsset,
    /// The file the release would install is already present: the mod is on
    /// the latest version, and nothing is downloaded or written.
    AlreadyCurrent,
    /// Downloading the matched asset failed; the mod is skipped.
    DownloadFailed,
    /// The mod is to be updated: the caller deletes `old_file` (when one
    /// matching the pattern was found) and writes the fetched bytes under
    /// `file_name`.
    Updated { file_name: String, old_file: Option<String> },
}

/// Where one mod's update run stands, and what the caller must do next.
#[derive(Debug, PartialEq)]
pub enum ModState {
    /// Nothing has happened yet; feed [`ModEvent::Begin`].
    Start,
    /// Fetch the release metadata from `api_url` and feed the result.
    AwaitRelease { api_url: String },
    /// Test whether `file_name` already exists in the group's directory and
    /// feed the answer.
    AwaitTarget { asset: ReleaseData, file_name: String },
    /// Download the asset's bytes and feed whether that succeeded.
    AwaitDownload { asset: ReleaseData, file_name: String },
    /// List the file names in the group's directory and feed them.
    AwaitListing { file_name: String },
    /// The run is over; act on the outcome.
    Finished { outcome: ModOutcome },
}

/// What the caller observed for the pending state.
#[derive(Debug, PartialEq)]
pub enum ModEvent {
    Begin,
    Release { result: Option<APIResult> },
    TargetExists { exists: bool },
    Download { ok: bool },
    Listing { names: Vec<String> },
}

/// The transition relation of the machine: what [`mod_step`] returns for a
/// mod, a state and an observed event.  An event that does not belong to the
/// pending state leaves the state unchanged.
pub open spec fn step_rel(m: Mod, s: ModState, e: ModEvent, next: ModState) -> bool {
    match (s, e) {
        (ModState::Start, ModEvent::Begin) => {
            if is_repo_url(m.download_link@) {
                next matches ModState::AwaitRelease { api_url }
                    && api_url@ == api_url_of(m.download_link@)
            } else {
                next == (ModState::Finished { outcome: ModOutcome::InvalidUrl })
            }
        },
        (ModState::AwaitRelease { .. }, ModEvent::Release { result }) => {
            match result {
                None => next == (ModState::Finished { outcome: ModOutcome::FetchFailed }),
                Some(api) => match first_asset_index(m.pattern@, api.assets@) {
                    None => next == (
                    ModState::Finished { outcome: ModOutcome::NoMatchingAsset }
                    ),
                    Some(i) => next matches ModState::AwaitTarget { asset, file_name }
                        && asset == api.assets@[i]
                        && file_name@ == file_part(asset.browser_download_url@, '/'),
                },
            }
        },
        (ModState::AwaitTarget { asset, file_name }, ModEvent::TargetExists { exists }) => {
            if exists {
                next == (ModState::Finished { outcome: ModOutcome::AlreadyCurrent })
            } else {
                next == (ModState::AwaitDownload { asset, file_name })
            }
        },
        (ModState::AwaitDownload { asset, file_name }, ModEvent::Download { ok }) => {
            if ok {
                next == (ModState::AwaitListing { file_name })
            } else {
                next == (ModState::Finished { outcome: ModOutcome::DownloadFailed })
            }
        },
        (ModState::AwaitListing { file_name }, ModEvent::Listing { names }) => {
            match first_where(names@, old_name_matches(m.pattern@)) {
                None => next == (
                ModState::Finished {
                    outcome: ModOutcome::Updated { file_name, old_file: None },
                }
                ),
                Some(i) => next == (
                ModState::Finished {
                    outcome: ModOutcome::Updated { file_name, old_file: Some(names@[i]) },
                }
                ),
            }
        },
        (s2, _) => next == s2,
    }
}

/// Advances one mod's update run by one observed event, per [`step_rel`].
pub fn mod_step(mod_data: &Mod, state: ModState, event: ModEvent) -> (next: ModState)
    requires
        mod_data.wf(),
    ensures
        step_rel(*mod_data, state, event, next),
{
    match (state, event) {
        (ModState::Start, ModEvent::Begin) => {
            let api_url = build_github_url(mod_data.download_link.clone());
            if api_url.as_str().unicode_len() == 0 {
                proof {
                    reveal_strlit("https://api.github.com/repos/");
                }
                ModState::Finished { outcome: ModOutcome::InvalidUrl }
            } else {
                ModState::AwaitRelease { api_url }
            }
        },
        (ModState::AwaitRelease { api_url: _ }, ModEvent::Release { result }) => {
            match result {
                None => ModState::Finished { outcome: ModOutcome::FetchFailed },
                Some(api) => {
                    match find_matching_asset(&api, mod_data) {
                        Ok(asset) => {
                            let file_name = url_file_name(asset.browser_download_url.as_str());
                            ModState::AwaitTarget { asset, file_name }
                        },
                        Err(_) => ModState::Finished { outcome: ModOutcome::NoMatchingAsset },
                    }
                },
            }
        },
        (ModState::AwaitTarget { asset, file_name }, ModEvent::TargetExists { exists }) => {
            if exists {
                ModState::Finished { outcome: ModOutcome::AlreadyCurrent }
            } else {
                ModState::AwaitDownload { asset, file_name }
            }
        },
        (ModState::AwaitDownload { asset: _, file_name }, ModEvent::Download { ok }) => {
            if ok {
                ModState::AwaitListing { file_name }
            } else {
                ModState::Finished { outcome: ModOutcome::DownloadFailed }
            }
        },
        (ModState::AwaitListing { file_name }, ModEvent::Listing { names }) => {
            match find_old_file(&names, mod_data.pattern.as_str()) {
                Some(old) => ModState::Finished {
                    outcome: ModOutcome::Updated { file_name, old_file: Some(old) },
                },
                None => ModState::Finished {
                    outcome: ModOutcome::Updated { file_name, old_file: None },
                },
            }
        },
        (s, _) => s,
    }
}

/// Begins a group update: one machine at [`ModState::Start`] per mod, in the
/// group's declared order — unless the group's install directory is missing,
/// in which case the whole group is aborted up front and no mod is started,
/// so no network request is made for any of them.
pub fn start_mods(group: &ModGroup, location_exists: bool) -> (r: Option<Vec<ModState>>)
    ensures
        r is Some <==> location_exists,
        r matches Some(states) ==> states@.len() == group.mods@.len() && forall|i: int|
            0 <= i < states@.len() ==> states@[i] == ModState::Start,
{
    if !location_exists {
        return None;
    }
    let mut states: Vec<ModState> = Vec::new();
    let mut i: usize = 0;
    while i < group.mods.len()
        invariant
            i <= group.mods@.len(),
            states@.len() == i,
            forall|j: int| 0 <= j < i ==> states@[j] == ModState::Start,
        decreases group.mods.len() - i,
    {
        states.push(ModState::Start);
        i += 1;
    }
    Some(states)
}

/// The one outcome that touches the file system: the caller deletes and
/// writes only when a run ends `Updated`.
pub open spec fn writes_files(s: ModState) -> bool {
    s matches ModState::Finished { outcome: ModOutcome::Updated { .. } }
}

/// States from which a write could still happen: a download is pending or
/// done, or the run already ended `Updated`.
pub open spec fn may_reach_write(s: ModState) -> bool {
    ||| s matches ModState::AwaitDownload { .. }
    ||| s matches ModState::AwaitListing { .. }
    ||| writes_files(s)
}

/// The event stream of a run that finds every target file already installed:
/// every answer to "does the target file exist?" is yes.
pub open spec fn reports_current(e: ModEvent) -> bool {
    e matches ModEvent::TargetExists { exists } ==> exists
}

/// One step of idempotence: while the target file is reported present, the
/// machine never enters a state that could write, and the check itself ends
/// the run as `AlreadyCurrent`.
pub proof fn lemma_step_stays_current(m: Mod, s: ModState, e: ModEvent, next: ModState)
    requires
        step_rel(m, s, e, next),
        !may_reach_write(s),
        reports_current(e),
    ensures
        !may_reach_write(next),
        (s matches ModState::AwaitTarget { .. } && e matches ModEvent::TargetExists { .. })
            ==> next == (ModState::Finished { outcome: ModOutcome::AlreadyCurrent }),
{
}

/// `t` is reachable from `s` by stepping through `events` in order.
pub open spec fn reaches(m: Mod, s: ModState, events: Seq<ModEvent>, t: ModState) -> bool
    decreases events.len(),
{
    if events.len() == 0 {
        t == s
    } else {
        exists|mid: ModState| step_rel(m, s, events[0], mid) && reaches(m, mid, events.skip(1), t)
    }
}

/// Idempotence of an update run: on a second run with no new release
/// available, every existence check finds the target file already installed,
/// and then a run started at [`ModState::Start`] can never end `Updated` —
/// so the caller deletes nothing and writes nothing.
pub proof fn lemma_second_run_never_writes(m: Mod, s: ModState, events: Seq<ModEvent>, t: ModState)
    requires
        reaches(m, s, events, t),
        !may_reach_write(s),
        forall|i: int| 0 <= i < events.len() ==> reports_current(#[trigger] events[i]),
    ensures
        !may_reach_write(t),
        !writes_files(t),
    decreases events.len(),
{
    if events.len() == 0 {
    } else {
        let mid = choose|mid: ModState|
            step_rel(m, s, events[0], mid) && reaches(m, mid, events.skip(1), t);
        lemma_step_stays_current(m, s, events[0], mid);
        assert forall|i: int| 0 <= i < events.skip(1).len() implies reports_current(
            #[trigger] events.skip(1)[i],
        ) by {
            assert(events.skip(1)[i] == events[i + 1]);
        }
        lemma_second_run_never_writes(m, mid, events.skip(1), t);
    }
}

} // verus!
