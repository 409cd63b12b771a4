use std::sync::Arc;

use jetbrains_projects::ide::data::IDEData;
use jetbrains_projects::ide::product_info::{IDELaunchSettings, IDEProductInfo};
use jetbrains_projects::ide::IDEType;
use jetbrains_projects::index::{build_index, sort_by_recency, unique_projects};
use jetbrains_projects::recent_project::RecentProject;

fn descriptor() -> IDEProductInfo {
    IDEProductInfo {
        name: "Product".to_string(),
        version: "2024.1".to_string(),
        build_number: "241.1".to_string(),
        ide_type: IDEType::Rider,
        data_directory_name: "Product2024.1".to_string(),
        svg_icon_path: "bin/product.svg".to_string(),
        launch_settings: vec![IDELaunchSettings {
            launcher_path: "bin/product.sh".to_string(),
            startup_wm_class: "jetbrains-product".to_string(),
        }],
    }
}

fn installation(ide_type: IDEType) -> Arc<IDEData> {
    Arc::new(IDEData {
        product_info: descriptor(),
        install_dir: "/opt/x".to_string(),
        ide_type,
        version: "2024.1".to_string(),
        config_path: "/home/u/.config/JetBrains/X".to_string(),
        fallback_icon_path: "/opt/x/bin/x.svg".to_string(),
        icon_name: "jetbrains-x".to_string(),
        launcher_path: "/opt/x/bin/x.sh".to_string(),
    })
}

fn project(name: &str, path: &str, ide: &Arc<IDEData>, last_opened: i64) -> RecentProject {
    RecentProject {
        name: name.to_string(),
        path: path.to_string(),
        icon: None,
        ide: Arc::clone(ide),
        last_opened,
    }
}

fn summary(projects: &[RecentProject]) -> Vec<(String, String, IDEType, i64)> {
    projects
        .iter()
        .map(|p| (p.name.clone(), p.path.clone(), p.ide.ide_type, p.last_opened))
        .collect()
}

#[test]
fn index_is_ordered_newest_first() {
    let clion = installation(IDEType::CLion);
    let index = build_index(vec![
        project("a", "/a", &clion, 10),
        project("b", "/b", &clion, 30),
        project("c", "/c", &clion, 20),
    ]);
    assert_eq!(
        summary(&index),
        vec![
            ("b".to_string(), "/b".to_string(), IDEType::CLion, 30),
            ("c".to_string(), "/c".to_string(), IDEType::CLion, 20),
            ("a".to_string(), "/a".to_string(), IDEType::CLion, 10),
        ]
    );
}

#[test]
fn duplicate_keeps_the_later_time_whatever_the_order() {
    let clion = installation(IDEType::CLion);
    let older_first = build_index(vec![project("p", "/p", &clion, 100), project("p", "/p", &clion, 200)]);
    let newer_first = build_index(vec![project("p", "/p", &clion, 200), project("p", "/p", &clion, 100)]);
    assert_eq!(older_first.len(), 1);
    assert_eq!(newer_first.len(), 1);
    assert_eq!(older_first[0].last_opened, 200);
    assert_eq!(newer_first[0].last_opened, 200);
}

#[test]
fn duplicates_with_other_names_or_icons_are_one_project() {
    let clion = installation(IDEType::CLion);
    let mut with_icon = project("Other Name", "/p", &clion, 5);
    with_icon.icon = Some("/p/.idea/icon.svg".to_string());
    let index = build_index(vec![project("Name", "/p", &clion, 7), with_icon]);
    assert_eq!(summary(&index), vec![("Name".to_string(), "/p".to_string(), IDEType::CLion, 7)]);
}

#[test]
fn same_path_under_two_products_is_two_projects() {
    let clion = installation(IDEType::CLion);
    let rider = installation(IDEType::Rider);
    let index = build_index(vec![project("p", "/p", &clion, 1), project("p", "/p", &rider, 2)]);
    assert_eq!(index.len(), 2);
    assert_eq!(index[0].ide.ide_type, IDEType::Rider);
    assert_eq!(index[1].ide.ide_type, IDEType::CLion);
}

#[test]
fn two_installations_of_one_product_share_a_project() {
    let one = installation(IDEType::CLion);
    let two = installation(IDEType::CLion);
    let index = build_index(vec![project("p", "/p", &one, 1), project("p", "/p", &two, 2)]);
    assert_eq!(index.len(), 1);
    assert_eq!(index[0].last_opened, 2);
}

#[test]
fn equal_times_keep_the_order_of_discovery() {
    let clion = installation(IDEType::CLion);
    let index = build_index(vec![
        project("first", "/1", &clion, 5),
        project("second", "/2", &clion, 5),
        project("newer", "/3", &clion, 9),
        project("third", "/4", &clion, 5),
    ]);
    let names: Vec<String> = index.iter().map(|p| p.name.clone()).collect();
    assert_eq!(names, vec!["newer", "first", "second", "third"]);
}

#[test]
fn equal_times_of_one_project_keep_the_first_found() {
    let clion = installation(IDEType::CLion);
    let index = build_index(vec![project("first", "/p", &clion, 5), project("second", "/p", &clion, 5)]);
    assert_eq!(index.len(), 1);
    assert_eq!(index[0].name, "first");
}

#[test]
fn indexing_an_index_changes_nothing() {
    let clion = installation(IDEType::CLion);
    let rider = installation(IDEType::Rider);
    let once = build_index(vec![
        project("a", "/a", &clion, 3),
        project("b", "/b", &rider, 8),
        project("a2", "/a", &clion, 9),
        project("c", "/c", &clion, 8),
        project("b2", "/b", &rider, 1),
    ]);
    let before = summary(&once);
    let twice = build_index(once);
    assert_eq!(summary(&twice), before);
    assert_eq!(before.len(), 3);
}

#[test]
fn empty_index_is_a_valid_result() {
    assert!(build_index(Vec::new()).is_empty());
}

#[test]
fn sorting_alone_keeps_every_record() {
    let clion = installation(IDEType::CLion);
    let sorted = sort_by_recency(vec![
        project("p", "/p", &clion, 1),
        project("p", "/p", &clion, 3),
        project("p", "/p", &clion, 2),
    ]);
    let times: Vec<i64> = sorted.iter().map(|p| p.last_opened).collect();
    assert_eq!(times, vec![3, 2, 1]);
}

#[test]
fn unique_alone_keeps_first_occurrences_in_order() {
    let clion = installation(IDEType::CLion);
    let kept = unique_projects(vec![
        project("a", "/a", &clion, 1),
        project("b", "/b", &clion, 2),
        project("a again", "/a", &clion, 3),
        project("c", "/c", &clion, 0),
    ]);
    let names: Vec<String> = kept.iter().map(|p| p.name.clone()).collect();
    assert_eq!(names, vec!["a", "b", "c"]);
}

#[test]
fn records_are_equal_when_path_and_product_agree() {
    let clion = installation(IDEType::CLion);
    let rider = installation(IDEType::Rider);
    assert!(project("a", "/p", &clion, 1) == project("b", "/p", &clion, 2));
    assert!(project("a", "/p", &clion, 1) != project("a", "/q", &clion, 1));
    assert!(project("a", "/p", &clion, 1) != project("a", "/p", &rider, 1));
    assert!(project("a", "/p", &clion, 1).same_project(&project("z", "/p", &clion, 9)));
}

#[test]
fn negative_and_extreme_times_are_ordered_too() {
    let clion = installation(IDEType::CLion);
    let index = build_index(vec![
        project("min", "/min", &clion, i64::MIN),
        project("max", "/max", &clion, i64::MAX),
        project("zero", "/zero", &clion, 0),
        project("neg", "/neg", &clion, -1),
    ]);
    let names: Vec<String> = index.iter().map(|p| p.name.clone()).collect();
    assert_eq!(names, vec!["max", "zero", "neg", "min"]);
}
