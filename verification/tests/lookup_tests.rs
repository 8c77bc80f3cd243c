use mod_updater::lookup::search;
use mod_updater::types::{MMUConfig, Mod, ModGroup};

fn group(name: &str, location: &str) -> ModGroup {
    ModGroup {
        name: name.to_string(),
        mods: vec![Mod {
            name: format!("{}-mod", name),
            pattern: "a-*.jar".to_string(),
            download_link: "https://github.com/a/b".to_string(),
        }],
        location: location.to_string(),
    }
}

fn config() -> MMUConfig {
    MMUConfig {
        mods: vec![
            group("core", "C:\\mods\\core"),
            group("extras", "C:\\mods\\extras"),
            group("core", "C:\\mods\\duplicate"),
        ],
    }
}

#[test]
fn search_finds_group_by_exact_name() {
    let g = search(&config(), "extras".to_string()).unwrap();
    assert_eq!(g.name, "extras");
    assert_eq!(g.location, "C:\\mods\\extras");
    assert_eq!(g.mods.len(), 1);
    assert_eq!(g.mods[0].name, "extras-mod");
}

#[test]
fn search_returns_first_of_duplicate_names() {
    let g = search(&config(), "core".to_string()).unwrap();
    assert_eq!(g.location, "C:\\mods\\core");
}

#[test]
fn search_not_found_names_the_queried_string() {
    let err = search(&config(), "nope".to_string()).unwrap_err();
    assert_eq!(err, "Could not find 'nope'");
}

#[test]
fn search_is_case_sensitive_and_untrimmed() {
    assert!(search(&config(), "Core".to_string()).is_err());
    assert!(search(&config(), " core".to_string()).is_err());
}

#[test]
fn search_same_inputs_same_answer() {
    let c = config();
    let a = search(&c, "core".to_string()).unwrap();
    let b = search(&c, "core".to_string()).unwrap();
    assert_eq!(a, b);
    let e1 = search(&c, "absent".to_string()).unwrap_err();
    let e2 = search(&c, "absent".to_string()).unwrap_err();
    assert_eq!(e1, e2);
}

#[test]
fn search_in_empty_config_finds_nothing() {
    let c = MMUConfig { mods: vec![] };
    assert_eq!(
        search(&c, "core".to_string()).unwrap_err(),
        "Could not find 'core'"
    );
}
