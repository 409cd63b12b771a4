use std::sync::Arc;

use jetbrains_projects::ide::data::IDEData;
use jetbrains_projects::ide::product_info::{IDELaunchSettings, IDEProductInfo};
use jetbrains_projects::ide::IDEType;
use jetbrains_projects::normalize::{Finding, IconSearch, Normalizer, Presence, Probe, SkipReason};
use jetbrains_projects::recent_project::{Candidate, RecentProject};

fn descriptor() -> IDEProductInfo {
    IDEProductInfo {
        name: "Product".to_string(),
        version: "2024.1".to_string(),
        build_number: "241.1".to_string(),
        ide_type: IDEType::Rider,
        data_directory_name: "Product2024.1".to_string(),
        svg_icon_path: "bin/product.svg".to_string(),
        launch_settings: vec![IDELaunchSettings {
            launcher_path: "bin/product.sh".to_string(),
            startup_wm_class: "jetbrains-product".to_string(),
        }],
    }
}

fn installation() -> Arc<IDEData> {
    Arc::new(IDEData {
        product_info: descriptor(),
        install_dir: "/opt/x".to_string(),
        ide_type: IDEType::Rider,
        version: "2024.1".to_string(),
        config_path: "/home/u/.config/JetBrains/Rider2024.1".to_string(),
        fallback_icon_path: "/opt/rider/bin/rider.svg".to_string(),
        icon_name: "jetbrains-rider".to_string(),
        launcher_path: "/opt/rider/bin/rider.sh".to_string(),
    })
}

fn candidate(value: Option<&str>, key: Option<&str>, opened: Option<&str>) -> Candidate {
    Candidate {
        value: value.map(|s| s.to_string()),
        key: key.map(|s| s.to_string()),
        opened: opened.map(|s| s.to_string()),
    }
}

fn begin_at(path: &str, opened: Option<&str>) -> Normalizer {
    Normalizer::begin(candidate(Some(path), None, opened), installation(), Some(path.to_string()))
}

fn run(mut state: Normalizer, findings: Vec<Finding>) -> Normalizer {
    for finding in findings {
        state = state.advance(finding);
    }
    state
}

fn record(state: Normalizer) -> RecentProject {
    match state {
        Normalizer::Done(Ok(project)) => project,
        other => panic!("no record: {:?}", other),
    }
}

fn skipped(state: Normalizer) -> SkipReason {
    match state {
        Normalizer::Done(Err(reason)) => reason,
        other => panic!("not skipped: {:?}", other),
    }
}

fn asked(state: &Normalizer) -> String {
    match state.probe() {
        Some(Probe::Kind(path)) => format!("kind {}", path),
        Some(Probe::Presence(path)) => format!("presence {}", path),
        Some(Probe::Marker(path)) => format!("marker {}", path),
        Some(Probe::Icon { root, pattern }) => format!("icon {} {}", root, pattern),
        None => "nothing".to_string(),
    }
}

#[test]
fn marker_file_names_the_project_before_the_directory_does() {
    let state = run(
        begin_at("/home/u/work/Bar", Some("1700000000000")),
        vec![
            Finding::Kind(false),
            Finding::Presence(Presence::Present),
            Finding::Marker(Some("Foo".to_string())),
            Finding::Icon(IconSearch::NoIcon),
        ],
    );
    let project = record(state);
    assert_eq!(project.name, "Foo");
    assert_eq!(project.path, "/home/u/work/Bar");
    assert_eq!(project.icon, None);
    assert_eq!(project.last_opened, 1_700_000_000_000);
    assert_eq!(project.ide.ide_type, IDEType::Rider);
}

#[test]
fn marker_file_contents_are_trimmed() {
    let state = run(
        begin_at("/home/u/work/Bar", Some("1")),
        vec![
            Finding::Kind(false),
            Finding::Presence(Presence::Present),
            Finding::Marker(Some("  My App\n".to_string())),
            Finding::Icon(IconSearch::NoIcon),
        ],
    );
    assert_eq!(record(state).name, "My App");
}

#[test]
fn solution_file_gives_parent_as_root_and_its_stem_as_name() {
    let state = run(
        begin_at("/home/u/work/App/Foo.sln", Some("1700000000000")),
        vec![
            Finding::Kind(true),
            Finding::Presence(Presence::Present),
            Finding::Marker(None),
            Finding::Icon(IconSearch::NoIcon),
        ],
    );
    let project = record(state);
    assert_eq!(project.path, "/home/u/work/App");
    assert_eq!(project.name, "Foo");
}

#[test]
fn marker_file_beats_the_solution_name() {
    let state = run(
        begin_at("/home/u/work/App/Foo.sln", Some("5")),
        vec![
            Finding::Kind(true),
            Finding::Presence(Presence::Present),
            Finding::Marker(Some("Real Name\n".to_string())),
            Finding::Icon(IconSearch::NoIcon),
        ],
    );
    assert_eq!(record(state).name, "Real Name");
}

#[test]
fn directory_name_is_the_last_resort() {
    let state = run(
        begin_at("/home/u/work/Bar", Some("5")),
        vec![
            Finding::Kind(false),
            Finding::Presence(Presence::Present),
            Finding::Marker(None),
            Finding::Icon(IconSearch::NoIcon),
        ],
    );
    assert_eq!(record(state).name, "Bar");
}

#[test]
fn questions_are_asked_in_order() {
    let mut state = begin_at("/home/u/work/App/Foo.sln", Some("5"));
    assert_eq!(asked(&state), "kind /home/u/work/App/Foo.sln");
    state = state.advance(Finding::Kind(true));
    assert_eq!(asked(&state), "presence /home/u/work/App");
    state = state.advance(Finding::Presence(Presence::Present));
    assert_eq!(asked(&state), "marker /home/u/work/App/.idea/.name");
    state = state.advance(Finding::Marker(None));
    assert_eq!(asked(&state), "icon /home/u/work/App .idea/icon.*");
    state = state.advance(Finding::Icon(IconSearch::Found("/home/u/work/App/.idea/icon.svg".to_string())));
    assert_eq!(asked(&state), "nothing");
    assert_eq!(record(state).icon, Some("/home/u/work/App/.idea/icon.svg".to_string()));
}

#[test]
fn missing_root_is_skipped() {
    let state = run(begin_at("/gone", Some("5")), vec![Finding::Kind(false), Finding::Presence(Presence::Missing)]);
    assert_eq!(skipped(state), SkipReason::PathMissing);
}

#[test]
fn inaccessible_root_is_skipped() {
    let state = run(
        begin_at("/secret", Some("5")),
        vec![Finding::Kind(false), Finding::Presence(Presence::Inaccessible)],
    );
    assert_eq!(skipped(state), SkipReason::PathInaccessible);
}

#[test]
fn unresolved_path_is_skipped() {
    let state = Normalizer::begin(candidate(Some("~/x"), None, Some("5")), installation(), None);
    assert_eq!(skipped(state), SkipReason::PathNotResolvable);
}

#[test]
fn entry_without_path_is_skipped() {
    let state = Normalizer::start(candidate(None, None, Some("5")), installation());
    assert_eq!(skipped(state), SkipReason::PathNotResolvable);
}

#[test]
fn root_without_any_name_is_skipped() {
    let state = run(
        begin_at("/", Some("5")),
        vec![Finding::Kind(false), Finding::Presence(Presence::Present), Finding::Marker(None)],
    );
    assert_eq!(skipped(state), SkipReason::NoName);
}

#[test]
fn missing_timestamp_is_skipped() {
    let findings = || vec![Finding::Kind(false), Finding::Presence(Presence::Present), Finding::Marker(None)];
    assert_eq!(skipped(run(begin_at("/p", None), findings())), SkipReason::NoTimestamp);
    assert_eq!(skipped(run(begin_at("/p", Some("soon")), findings())), SkipReason::NoTimestamp);
    assert_eq!(
        skipped(run(begin_at("/p", Some("9223372036854775807")), findings())),
        SkipReason::NoTimestamp
    );
}

#[test]
fn name_is_checked_before_the_timestamp() {
    let state = run(
        begin_at("/", None),
        vec![Finding::Kind(false), Finding::Presence(Presence::Present), Finding::Marker(None)],
    );
    assert_eq!(skipped(state), SkipReason::NoName);
}

#[test]
fn failed_icon_search_is_skipped() {
    let state = run(
        begin_at("/p", Some("5")),
        vec![
            Finding::Kind(false),
            Finding::Presence(Presence::Present),
            Finding::Marker(None),
            Finding::Icon(IconSearch::Failed),
        ],
    );
    assert_eq!(skipped(state), SkipReason::IconSearchFailed);
}

#[test]
fn answers_to_other_questions_change_nothing() {
    let mut state = begin_at("/p", Some("5"));
    state = state.advance(Finding::Presence(Presence::Present));
    state = state.advance(Finding::Marker(Some("x".to_string())));
    state = state.advance(Finding::Icon(IconSearch::NoIcon));
    assert_eq!(asked(&state), "kind /p");
    state = state.advance(Finding::Kind(false));
    state = state.advance(Finding::Kind(true));
    assert_eq!(asked(&state), "presence /p");
}

#[test]
fn done_stays_done() {
    let state = run(begin_at("/gone", Some("5")), vec![Finding::Kind(false), Finding::Presence(Presence::Missing)]);
    let state = run(state, vec![Finding::Presence(Presence::Present), Finding::Marker(None), Finding::Kind(true)]);
    assert_eq!(skipped(state), SkipReason::PathMissing);
}

#[test]
fn raw_path_prefers_value_and_puts_tilde_for_the_placeholder() {
    assert_eq!(
        Normalizer::raw_path(&candidate(Some("$USER_HOME$/a"), Some("/k"), None)),
        Some("~/a".to_string())
    );
    assert_eq!(Normalizer::raw_path(&candidate(None, Some("$USER_HOME$/k"), None)), Some("~/k".to_string()));
    assert_eq!(Normalizer::raw_path(&candidate(Some("/plain"), None, None)), Some("/plain".to_string()));
    assert_eq!(Normalizer::raw_path(&candidate(None, None, Some("1"))), None);
}

#[test]
fn absolute_path_starts_where_it_points() {
    let state = Normalizer::start(candidate(Some("/abs/project"), None, Some("5")), installation());
    match state {
        Normalizer::Kind { path, .. } => assert_eq!(path, "/abs/project"),
        Normalizer::Done(Err(SkipReason::PathNotResolvable)) => {}
        other => panic!("unexpected state: {:?}", other),
    }
}

#[test]
fn home_placeholder_resolves_under_the_home_directory() {
    let state = Normalizer::start(candidate(Some("$USER_HOME$/work/app"), None, Some("5")), installation());
    match state {
        Normalizer::Kind { path, .. } => {
            assert!(path.ends_with("/work/app"));
            assert!(!path.contains('~'));
            assert!(!path.contains("$USER_HOME$"));
        }
        Normalizer::Done(Err(SkipReason::PathNotResolvable)) => {}
        other => panic!("unexpected state: {:?}", other),
    }
}

#[test]
fn file_without_a_parent_is_skipped() {
    let state = run(begin_at("/", Some("5")), vec![Finding::Kind(true)]);
    assert_eq!(skipped(state), SkipReason::PathNotResolvable);
}

#[test]
fn record_belongs_to_the_installation_that_was_scanned() {
    let ide = installation();
    let state = Normalizer::begin(candidate(Some("/p"), None, Some("5")), Arc::clone(&ide), Some("/p".to_string()));
    let state = run(
        state,
        vec![
            Finding::Kind(false),
            Finding::Presence(Presence::Present),
            Finding::Marker(None),
            Finding::Icon(IconSearch::NoIcon),
        ],
    );
    assert!(Arc::ptr_eq(&record(state).ide, &ide));
}

#[test]
fn relative_path_resolves_under_the_working_directory() {
    let state = Normalizer::start(candidate(Some("work/app"), None, Some("5")), installation());
    match state {
        Normalizer::Kind { path, .. } => {
            assert!(path == "work/app" || path.ends_with("/work/app"));
        }
        Normalizer::Done(Err(SkipReason::PathNotResolvable)) => {}
        other => panic!("unexpected state: {:?}", other),
    }
}

#[test]
fn path_that_did_not_come_out_absolute_is_skipped() {
    let state = Normalizer::begin(
        candidate(Some("work/app"), None, Some("5")),
        installation(),
        Some("work/app".to_string()),
    );
    assert_eq!(skipped(state), SkipReason::PathNotResolvable);
    let state = Normalizer::begin(candidate(Some(""), None, Some("5")), installation(), Some("".to_string()));
    assert_eq!(skipped(state), SkipReason::PathNotResolvable);
}

#[test]
fn root_is_written_without_trailing_slashes() {
    let mut state = begin_at("/w/app/", Some("5"));
    assert_eq!(asked(&state), "kind /w/app/");
    state = state.advance(Finding::Kind(false));
    assert_eq!(asked(&state), "presence /w/app");
    let state = run(
        state,
        vec![Finding::Presence(Presence::Present), Finding::Marker(None), Finding::Icon(IconSearch::NoIcon)],
    );
    let project = record(state);
    assert_eq!(project.path, "/w/app");
    assert_eq!(project.name, "app");
}

#[test]
fn records_of_one_directory_are_one_project() {
    let findings = || {
        vec![
            Finding::Kind(false),
            Finding::Presence(Presence::Present),
            Finding::Marker(None),
            Finding::Icon(IconSearch::NoIcon),
        ]
    };
    let plain = record(run(begin_at("/w/app", Some("5")), findings()));
    let slashed = record(run(begin_at("/w/app/", Some("6")), findings()));
    let dotted = record(run(begin_at("/w/app/.", Some("7")), findings()));
    let doubled = record(run(begin_at("/w//./app", Some("8")), findings()));
    assert!(plain == slashed);
    assert!(plain == dotted);
    assert!(plain == doubled);
    assert_eq!(dotted.name, "app");
    assert_eq!(doubled.path, "/w/app");
}

#[test]
fn solution_file_root_is_written_tidy() {
    let state = run(
        begin_at("/w//app/./Foo.sln", Some("5")),
        vec![
            Finding::Kind(true),
            Finding::Presence(Presence::Present),
            Finding::Marker(None),
            Finding::Icon(IconSearch::NoIcon),
        ],
    );
    let project = record(state);
    assert_eq!(project.path, "/w/app");
    assert_eq!(project.name, "Foo");
}

#[test]
fn records_can_be_copied() {
    let project = record(run(
        begin_at("/w/app", Some("5")),
        vec![
            Finding::Kind(false),
            Finding::Presence(Presence::Present),
            Finding::Marker(Some("App".to_string())),
            Finding::Icon(IconSearch::Found("/w/app/.idea/icon.svg".to_string())),
        ],
    ));
    let copy = project.clone();
    assert_eq!(copy.name, "App");
    assert_eq!(copy.path, "/w/app");
    assert_eq!(copy.icon, Some("/w/app/.idea/icon.svg".to_string()));
    assert_eq!(copy.last_opened, 5);
    assert!(Arc::ptr_eq(&copy.ide, &project.ide));
    assert_eq!(copy.ide.as_ref().clone().launcher_path, project.ide.launcher_path);
}
