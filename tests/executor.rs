use rrm::filter::ModSteamInfo;
use rrm::installer::{get_steamcmd_path, GamePath, Installer, InstallerError, InstallerErrorCode};
use rrm::steamcmd::{classify_attempt, gen_command_line, Verdict};

const SESSION: &str = "Connecting anonymously to Steam Public...OK\nWaiting for client config...OK\nWaiting for user info...OK\n";
const DOWNLOAD: &str = "+workshop_download_item 294100 42";

fn record(id: u64) -> ModSteamInfo {
    ModSteamInfo { id, title: "t".to_string(), description: String::new(), author: String::new() }
}

#[test]
fn full_markers_are_a_success() {
    let out = format!("{}Success. Downloaded item 42 to \"x\"", SESSION);
    assert_eq!(classify_attempt(DOWNLOAD, &out, 1), Verdict::Success);
    assert_eq!(classify_attempt("", &out, 1), Verdict::Success);
}

#[test]
fn missing_session_marker_on_download_is_retried() {
    let out = "Connecting anonymously to Steam Public...OK\nWaiting for user info...OK\nSuccess. Downloaded item";
    assert_eq!(classify_attempt(DOWNLOAD, out, 1), Verdict::Retry);
    assert_eq!(classify_attempt(DOWNLOAD, "", 1000), Verdict::Retry);
}

#[test]
fn healthy_session_without_content_is_a_failure() {
    assert_eq!(classify_attempt(DOWNLOAD, SESSION, 1), Verdict::Failure);
}

#[test]
fn administrative_command_gives_up_at_the_fifth_attempt() {
    assert_eq!(classify_attempt("", SESSION, 1), Verdict::Retry);
    assert_eq!(classify_attempt("", "", 4), Verdict::Retry);
    assert_eq!(classify_attempt("", "", 5), Verdict::Exhausted);
}

#[test]
fn install_string_lists_every_id() {
    let s = Installer::gen_install_string(&[record(123), record(4567)]);
    assert_eq!(s, "+workshop_download_item 294100 123 +workshop_download_item 294100 4567");
    let s = Installer::gen_install_string(&[record(9)]);
    assert_eq!(s, "+workshop_download_item 294100 9");
    let s = Installer::gen_install_string(&[]);
    assert_eq!(s, "+workshop_download_item 294100 ");
}

#[test]
fn paths_are_joined_with_one_separator() {
    assert_eq!(get_steamcmd_path("/home/u/.config/rrm"), "/home/u/.config/rrm/steamcmd/steamcmd.sh");
    assert_eq!(get_steamcmd_path("/cfg/"), "/cfg/steamcmd/steamcmd.sh");
    assert_eq!(get_steamcmd_path(""), "steamcmd/steamcmd.sh");
    assert_eq!(GamePath("/games/RimWorld".to_string()).get_mod_path(), "/games/RimWorld/game/Mods");
    assert_eq!(GamePath::new().get_mod_path(), "game/Mods");
}

#[test]
fn installer_settings() {
    let i = Installer::new_empty();
    assert!(!i.use_pager);
    let i = i.enable_pager().with_pager("less".to_string()).with_steamcmd_path("/s".to_string());
    assert!(i.use_pager);
    assert_eq!(i.with_pager, "less");
    assert_eq!(i.steamcmd_path, "/s");
    let i = i.with_rimworld_path(GamePath("/g".to_string())).disable_pager();
    assert!(!i.use_pager);
    assert_eq!(i.rimworld_path.path(), "/g");
}

#[test]
fn error_descriptions() {
    let e = InstallerError::new(InstallerErrorCode::ConfigParseError, "bad json".to_string());
    assert_eq!(e.describe(), "ConfigParseError: bad json");
    assert_eq!(InstallerErrorCode::ConfigFileNotAvailable.name(), "ConfigNotAvailable");
    assert_eq!(InstallerErrorCode::WriteConfigError.name(), "WriteConfigError");
}

#[test]
fn command_line_logs_in_runs_and_quits() {
    let line = gen_command_line("/cfg", "/cfg/steamcmd/steamcmd.sh", DOWNLOAD);
    assert_eq!(
        line,
        "HOME=/cfg /cfg/steamcmd/steamcmd.sh +login anonymous +workshop_download_item 294100 42 +quit"
    );
}
