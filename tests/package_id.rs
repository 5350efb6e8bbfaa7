use rrm::package::{PackageId, RimworldMod};
use rrm::filter::ModSteamInfo;

#[test]
fn parse_test() {
    let name_path = vec!["VanillaFactionsExpanded".to_string(), "Core".to_string()];
    let parse_target = PackageId {
        author: "OskarPotocki".to_string(),
        name_path,
    };

    let parsed = PackageId::parse("OskarPotocki.VanillaFactionsExpanded.Core");
    assert_eq!(parsed, parse_target);
}

#[test]
fn display_test() {
    let name_path = vec!["VanillaFactionsExpanded".to_string(), "Core".to_string()];
    let package_id = PackageId {
        author: "OskarPotocki".to_string(),
        name_path,
    };

    assert_eq!(
        package_id.to_string(),
        "OskarPotocki.VanillaFactionsExpanded.Core"
    );
}

#[test]
fn parse_keeps_empty_pieces() {
    let parsed = PackageId::parse("Author.");
    assert_eq!(parsed.author, "Author");
    assert_eq!(parsed.name_path, vec!["".to_string()]);
    let parsed = PackageId::parse("a.b..c");
    assert_eq!(parsed.name_path, vec!["b".to_string(), "".to_string(), "c".to_string()]);
    assert_eq!(parsed.to_string(), "a.b..c");
}

#[test]
fn add_id_keeps_the_record() {
    let info = ModSteamInfo {
        id: 818773962,
        title: "HugsLib".to_string(),
        description: "Library".to_string(),
        author: "UnlimitedHugs".to_string(),
    };
    let unknown = RimworldMod::from_steam(info);
    let known = unknown.add_id(PackageId::parse("UnlimitedHugs.HugsLib"));
    assert_eq!(known.steam_id, 818773962);
    assert_eq!(known.name, "HugsLib");
    assert_eq!(known.id.0.to_string(), "UnlimitedHugs.HugsLib");
    assert!(known.versions.is_empty());
}
