use rrm::args::{DisplayOptions, Local, Steam, InstallCommandGroup, dedup_identifiers, parse_switch, search_in_steam, search_locally};
use rrm::filter::{resolve_fields, DisplayType, FilterFields, ModSteamInfo, SteamMods};
use rrm::parse_workshop_id;

fn record(id: u64, title: &str, author: &str, description: &str) -> ModSteamInfo {
    ModSteamInfo {
        id,
        title: title.to_string(),
        description: description.to_string(),
        author: author.to_string(),
    }
}

fn listing() -> SteamMods {
    SteamMods::from_mods(vec![
        record(818773962, "HugsLib", "UnlimitedHugs", "Library for mods"),
        record(2009463077, "Harmony", "Brrainz", "Patching library"),
        record(1541721856, "Vanilla Expanded Framework", "Oskar", "Framework"),
        record(0, "Broken", "Nobody", "no id"),
    ])
}

fn titles(m: &SteamMods) -> Vec<String> {
    m.mods.iter().map(|r| r.title.clone()).collect()
}

fn no_display() -> DisplayOptions {
    DisplayOptions { large: false, pager: false, no_pager: false }
}

const TITLE: FilterFields = FilterFields { steam_id: false, title: true, description: false, author: false };

#[test]
fn no_switch_defaults_to_title() {
    assert_eq!(resolve_fields(false, false, false, false, false), TITLE);
    let all = resolve_fields(true, false, true, false, false);
    assert_eq!(all, FilterFields { steam_id: true, title: true, description: true, author: true });
    let some = resolve_fields(false, false, true, true, false);
    assert_eq!(some, FilterFields { steam_id: false, title: false, description: true, author: true });
}

#[test]
fn filter_keeps_subsequence_matches_in_order() {
    let r = listing().filter_by(TITLE, "hl");
    assert_eq!(titles(&r), vec!["HugsLib".to_string()]);
    assert_eq!(r.biggest_name_size, 7);
    let r = listing().filter_by(TITLE, "a");
    assert_eq!(titles(&r), vec!["Harmony".to_string(), "Vanilla Expanded Framework".to_string()]);
    assert_eq!(r.biggest_name_size, 26);
}

#[test]
fn filter_excludes_non_subsequences() {
    let r = listing().filter_by(TITLE, "zzz");
    assert!(r.mods.is_empty());
    assert_eq!(r.biggest_name_size, 0);
    // the letters occur in no title in this order
    let r = listing().filter_by(TITLE, "ymh");
    assert!(r.mods.is_empty());
}

#[test]
fn filter_matches_author_description_and_id() {
    let author = FilterFields { steam_id: false, title: false, description: false, author: true };
    assert_eq!(titles(&listing().filter_by(author, "brr")), vec!["Harmony".to_string()]);
    let description = FilterFields { steam_id: false, title: false, description: true, author: false };
    assert_eq!(titles(&listing().filter_by(description, "patch")), vec!["Harmony".to_string()]);
    let id = FilterFields { steam_id: true, title: false, description: false, author: false };
    assert_eq!(titles(&listing().filter_by(id, "8187")), vec!["HugsLib".to_string()]);
}

#[test]
fn filter_drops_invalid_records_and_empty_query() {
    let r = listing().filter_by(TITLE, "broken");
    assert!(r.mods.is_empty());
    let r = listing().filter_by(TITLE, "");
    assert!(r.mods.is_empty());
    let r = SteamMods::new().filter_by(TITLE, "a");
    assert!(r.mods.is_empty());
}

#[test]
fn local_search_uses_switches_and_display() {
    let args = Local {
        display: DisplayOptions { large: true, pager: false, no_pager: false },
        string: "osk".to_string(),
        author: true,
        version: false,
        steam_id: false,
        name: false,
        all: false,
    };
    let r = search_locally(listing(), &args);
    assert_eq!(titles(&r), vec!["Vanilla Expanded Framework".to_string()]);
    assert_eq!(r.display_type, Some(DisplayType::Long));
}

#[test]
fn steam_search_filter_text_defaults_to_name() {
    let mut args = Steam {
        display: no_display(),
        mod_name: "harm".to_string(),
        filter: None,
        author: false,
        version: false,
        steam_id: false,
        name: false,
        all: false,
    };
    assert_eq!(search_in_steam(&args, listing()).mods.len(), 4);
    args.filter = Some(None);
    assert_eq!(titles(&search_in_steam(&args, listing())), vec!["Harmony".to_string()]);
    args.filter = Some(Some("hugs".to_string()));
    assert_eq!(titles(&search_in_steam(&args, listing())), vec!["HugsLib".to_string()]);
}

#[test]
fn install_arguments_are_deduplicated() {
    let v = vec!["a".to_string(), "b".to_string(), "a".to_string(), "c".to_string(), "b".to_string()];
    assert_eq!(dedup_identifiers(&v), vec!["a".to_string(), "b".to_string(), "c".to_string()]);
    let group = InstallCommandGroup {
        rimmod: v,
        filter: Some(None),
        author: false,
        version: false,
        steam_id: false,
        name: false,
        all: false,
        yes: false,
        resolve: true,
        verbose: false,
        debug: false,
    };
    let q = group.filter_query().unwrap();
    assert_eq!(q.fields, TITLE);
    assert!(q.value.is_none());
    let s = group.install_session(vec![]);
    assert_eq!(s.work.len(), 3);
}

#[test]
fn workshop_ids_parse_only_from_digits() {
    assert_eq!(parse_workshop_id("123456"), Some(123456));
    assert_eq!(parse_workshop_id("007"), Some(7));
    assert_eq!(parse_workshop_id("18446744073709551615"), Some(u64::MAX));
    assert_eq!(parse_workshop_id("18446744073709551616"), None);
    assert_eq!(parse_workshop_id(""), None);
    assert_eq!(parse_workshop_id("+12"), None);
    assert_eq!(parse_workshop_id("12a"), None);
}

#[test]
fn switch_values() {
    assert_eq!(parse_switch("true"), Some(true));
    assert_eq!(parse_switch("1"), Some(true));
    assert_eq!(parse_switch("false"), Some(false));
    assert_eq!(parse_switch("0"), Some(false));
    assert_eq!(parse_switch("yes"), None);
}
