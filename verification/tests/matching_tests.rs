use mod_updater::matching::{asset_matches, find_matching_asset, find_old_file, split_pattern};
use mod_updater::types::{APIResult, Mod, ReleaseData};

fn asset(name: &str, download_url: &str) -> ReleaseData {
    ReleaseData {
        url: String::new(),
        id: 0,
        node_id: String::new(),
        name: name.to_string(),
        label: String::new(),
        uploader: String::new(),
        content_type: String::new(),
        state: String::new(),
        size: 0,
        download_count: 0,
        created_at: String::new(),
        updated_at: String::new(),
        browser_download_url: download_url.to_string(),
    }
}

fn release(assets: Vec<ReleaseData>) -> APIResult {
    APIResult {
        url: String::new(),
        assets_url: String::new(),
        upload_url: String::new(),
        html_url: String::new(),
        id: 0,
        author: String::new(),
        node_id: String::new(),
        tag_name: String::new(),
        target_commitish: String::new(),
        name: String::new(),
        draft: false,
        prerelease: false,
        created_at: String::new(),
        published_at: String::new(),
        assets,
        tarball_url: String::new(),
        zipball_url: String::new(),
        body: String::new(),
    }
}

fn loader_mod() -> Mod {
    Mod {
        name: "loader".to_string(),
        pattern: "loader-*.jar".to_string(),
        download_link: "https://github.com/owner/repo".to_string(),
    }
}

#[test]
fn split_pattern_at_single_star() {
    let (pre, suf) = split_pattern("loader-*.jar").unwrap();
    assert_eq!(pre, "loader-");
    assert_eq!(suf, ".jar");
}

#[test]
fn split_pattern_rejects_no_star() {
    assert!(split_pattern("loader.jar").is_none());
}

#[test]
fn split_pattern_rejects_two_stars() {
    assert!(split_pattern("loader-*.*").is_none());
}

#[test]
fn match_needs_prefix_and_suffix() {
    assert!(asset_matches("loader-*.jar", "loader-2.1.jar"));
    assert!(!asset_matches("loader-*.jar", "docs.zip"));
    assert!(!asset_matches("loader-*.jar", "loader-2.1.zip"));
    assert!(!asset_matches("loader-*.jar", "other-2.1.jar"));
}

#[test]
fn match_is_case_sensitive() {
    assert!(!asset_matches("Loader-*.jar", "loader-2.1.jar"));
}

#[test]
fn empty_prefix_or_suffix_matches_anything_on_that_side() {
    assert!(asset_matches("*.jar", "anything.jar"));
    assert!(asset_matches("loader-*", "loader-2.1.zip"));
    assert!(asset_matches("*", "whatever"));
}

#[test]
fn overlapping_prefix_and_suffix_may_share_characters() {
    assert!(asset_matches("ab*ba", "aba"));
    assert!(!asset_matches("ab*ba", "ab"));
}

#[test]
fn first_matching_asset_in_list_order_wins() {
    let api = release(vec![
        asset("docs.zip", "https://example.invalid/docs.zip"),
        asset("loader-2.0.jar", "https://example.invalid/loader-2.0.jar"),
        asset("loader-2.1.jar", "https://example.invalid/loader-2.1.jar"),
    ]);
    let found = find_matching_asset(&api, &loader_mod()).unwrap();
    assert_eq!(found.name, "loader-2.0.jar");
}

#[test]
fn no_matching_asset_reports_the_mod_by_name() {
    let api = release(vec![asset("docs.zip", "https://example.invalid/docs.zip")]);
    let err = find_matching_asset(&api, &loader_mod()).unwrap_err();
    assert_eq!(
        err,
        "Skipping loader: no file in the latest release matches the pattern."
    );
}

#[test]
fn empty_asset_list_matches_nothing() {
    let api = release(vec![]);
    assert!(find_matching_asset(&api, &loader_mod()).is_err());
}

#[test]
fn find_old_file_returns_first_match_in_listing_order() {
    let names = vec![
        "readme.txt".to_string(),
        "loader-1.9.jar".to_string(),
        "loader-2.0.jar".to_string(),
    ];
    assert_eq!(
        find_old_file(&names, "loader-*.jar"),
        Some("loader-1.9.jar".to_string())
    );
}

#[test]
fn find_old_file_reports_absence() {
    let names = vec!["readme.txt".to_string()];
    assert_eq!(find_old_file(&names, "loader-*.jar"), None);
}
