//! A small library for keeping groups of downloadable "mods" up to date.
//!
//! A configuration lists named groups of mods; each mod carries a GitHub
//! repository link and a `<prefix>*<suffix>` file-name pattern.  The library
//! holds all the decision logic of an update run: locating a group by name,
//! deriving the releases-API URL from a repository link, picking the release
//! asset that matches a mod's pattern, and planning which file to delete and
//! which to write.  All I/O (HTTP, the file system) stays outside; callers
//! drive the update state machine in [`plan`] and perform the actions it asks
//! for.

pub mod lookup;
pub mod matching;
pub mod paths;
pub mod plan;
pub mod scan;
pub mod strutil;
pub mod types;
pub mod urls;
