use rrm::filter::{FilterFields, ModSteamInfo};
use rrm::install::{Action, FilterQuery, InstallOutcome, InstallSession};
use rrm::steamcmd::Verdict;

const GOOD_OUTPUT: &str = "Connecting anonymously to Steam Public...OK\nWaiting for client config...OK\nWaiting for user info...OK\nSuccess. Downloaded item";

fn record(id: u64, title: &str) -> ModSteamInfo {
    ModSteamInfo {
        id,
        title: title.to_string(),
        description: String::new(),
        author: "someone".to_string(),
    }
}

/// Drives a session to the end: `catalog` answers searches, `deps` answers
/// dependency lookups, every download succeeds. Returns the downloads asked
/// for and the searches made.
fn drive(
    session: &mut InstallSession,
    catalog: &dyn Fn(&str) -> Vec<ModSteamInfo>,
    deps: &dyn Fn(u64) -> Vec<String>,
) -> (Vec<Vec<u64>>, Vec<String>) {
    let mut downloads = Vec::new();
    let mut searches = Vec::new();
    loop {
        match session.next_action() {
            Action::Resolve(q) => {
                searches.push(q.clone());
                session.resolved(catalog(&q));
            }
            Action::Download(ids) => {
                downloads.push(ids.clone());
                session.downloaded(Verdict::Success, GOOD_OUTPUT.to_string());
            }
            Action::Dependencies(id) => session.dependencies_found(deps(id)),
            Action::Finished => break,
        }
    }
    (downloads, searches)
}

fn ids(outcomes: &[InstallOutcome]) -> Vec<Option<u64>> {
    outcomes.iter().map(|o| o.id).collect()
}

fn graph_catalog(q: &str) -> Vec<ModSteamInfo> {
    match q {
        "A" => vec![record(1, "A")],
        "B" => vec![record(2, "B")],
        "C" => vec![record(3, "C")],
        _ => vec![],
    }
}

fn graph_deps(id: u64) -> Vec<String> {
    match id {
        1 => vec!["B".to_string(), "C".to_string()],
        2 => vec!["A".to_string()],
        _ => vec![],
    }
}

#[test]
fn numeric_request_without_dependencies_downloads_once() {
    let mut s = InstallSession::new(vec!["123456".to_string()], false, None, vec![]);
    let (downloads, searches) = drive(&mut s, &|_| vec![], &|_| vec![]);
    assert_eq!(downloads, vec![vec![123456]]);
    assert!(searches.is_empty());
    assert_eq!(ids(s.outcomes()), vec![Some(123456)]);
    assert!(s.outcomes()[0].succeeded);
}

#[test]
fn ambiguous_name_without_filter_is_a_resolution_error() {
    let mut s = InstallSession::new(vec!["ModName".to_string()], false, None, vec![]);
    let catalog = |_: &str| vec![record(11, "ModName"), record(12, "ModName Extra")];
    let (downloads, _) = drive(&mut s, &catalog, &|_| vec![]);
    assert!(downloads.is_empty());
    assert_eq!(s.outcomes().len(), 1);
    assert_eq!(s.outcomes()[0].id, None);
    assert!(!s.outcomes()[0].succeeded);
    assert_eq!(s.outcomes()[0].raw_message, "no single mod matches ModName");
}

#[test]
fn filter_disambiguates_candidates() {
    let fields = FilterFields { steam_id: false, title: false, description: false, author: true };
    let filter = FilterQuery { fields, value: Some("ludeon".to_string()) };
    let mut s = InstallSession::new(vec!["ModName".to_string()], false, Some(filter), vec![]);
    let catalog = |_: &str| {
        let mut b = record(12, "ModName Extra");
        b.author = "Ludeon".to_string();
        vec![record(11, "ModName"), b]
    };
    let (downloads, _) = drive(&mut s, &catalog, &|_| vec![]);
    assert_eq!(downloads, vec![vec![12]]);
    assert_eq!(ids(s.outcomes()), vec![Some(12)]);
}

#[test]
fn filter_without_text_matches_the_identifier() {
    let fields = FilterFields { steam_id: false, title: true, description: false, author: false };
    let filter = FilterQuery { fields, value: None };
    let mut s = InstallSession::new(vec!["ModName".to_string()], false, Some(filter), vec![]);
    let catalog = |_: &str| vec![record(11, "ModName"), record(12, "Other")];
    let (downloads, _) = drive(&mut s, &catalog, &|_| vec![]);
    assert_eq!(downloads, vec![vec![11]]);
}

#[test]
fn dependency_cycle_installs_each_mod_once_in_order() {
    let mut s = InstallSession::new(vec!["A".to_string()], true, None, vec![]);
    let (downloads, _) = drive(&mut s, &graph_catalog, &graph_deps);
    assert_eq!(ids(s.outcomes()), vec![Some(1), Some(2), Some(3)]);
    assert_eq!(downloads, vec![vec![1], vec![2], vec![3]]);
}

#[test]
fn shared_dependency_is_recorded_once() {
    // 1 -> [2, 3], 2 -> [3], 3 -> [1]
    let deps = |id: u64| match id {
        1 => vec!["2".to_string(), "3".to_string()],
        2 => vec!["3".to_string()],
        _ => vec!["1".to_string()],
    };
    let mut s = InstallSession::new(vec!["1".to_string(), "3".to_string()], true, None, vec![]);
    let (downloads, searches) = drive(&mut s, &|_| vec![], &deps);
    assert!(searches.is_empty());
    assert_eq!(ids(s.outcomes()), vec![Some(1), Some(2), Some(3)]);
    assert_eq!(downloads.len(), 3);
}

#[test]
fn preseeded_id_is_skipped() {
    let mut s = InstallSession::new(vec!["A".to_string()], true, None, vec![2]);
    let (downloads, _) = drive(&mut s, &graph_catalog, &graph_deps);
    assert_eq!(downloads, vec![vec![1], vec![3]]);
    assert_eq!(ids(s.outcomes()), vec![Some(1), Some(3)]);

    let mut again = InstallSession::new(vec!["123456".to_string()], false, None, vec![123456]);
    let (downloads, _) = drive(&mut again, &|_| vec![], &|_| vec![]);
    assert!(downloads.is_empty());
    assert!(again.outcomes().is_empty());
}

#[test]
fn batch_mode_downloads_all_requests_together() {
    let requested = vec!["5".to_string(), "B".to_string(), "5".to_string(), "Nothing".to_string()];
    let mut s = InstallSession::new(requested, false, None, vec![]);
    let (downloads, searches) = drive(&mut s, &graph_catalog, &graph_deps);
    assert_eq!(searches, vec!["B".to_string(), "Nothing".to_string()]);
    assert_eq!(downloads, vec![vec![5, 2]]);
    assert_eq!(ids(s.outcomes()), vec![None, Some(5), Some(2)]);
}

#[test]
fn failed_download_does_not_follow_dependencies() {
    let mut s = InstallSession::new(vec!["A".to_string()], true, None, vec![]);
    assert!(matches!(s.next_action(), Action::Resolve(_)));
    s.resolved(graph_catalog("A"));
    match s.next_action() {
        Action::Download(ids) => assert_eq!(ids, vec![1]),
        _ => panic!("expected a download"),
    }
    s.downloaded(Verdict::Failure, "Waiting for user info...OK".to_string());
    assert!(matches!(s.next_action(), Action::Finished));
    assert_eq!(ids(s.outcomes()), vec![Some(1)]);
    assert!(!s.outcomes()[0].succeeded);
}

#[test]
fn exhausted_run_records_the_failure_text() {
    let mut s = InstallSession::new(vec!["7".to_string()], false, None, vec![]);
    assert!(matches!(s.next_action(), Action::Download(_)));
    s.downloaded(Verdict::Exhausted, String::new());
    assert_eq!(s.outcomes()[0].raw_message, "Error: Failed to install");
    assert!(!s.outcomes()[0].succeeded);
}

#[test]
fn invalid_candidates_do_not_resolve() {
    let mut s = InstallSession::new(vec!["X".to_string()], false, None, vec![]);
    let catalog = |_: &str| vec![record(0, "X"), record(9, "")];
    let (downloads, _) = drive(&mut s, &catalog, &|_| vec![]);
    assert!(downloads.is_empty());
    assert_eq!(ids(s.outcomes()), vec![None]);
}
