use std::sync::Arc;

use jetbrains_projects::ide::data::IDEData;
use jetbrains_projects::ide::product_info::{IDELaunchSettings, IDEProductInfo};
use jetbrains_projects::ide::IDEType;
use jetbrains_projects::recent_project::{recent_projects_pattern, Candidate, MalformedDocument, RecentProjectsParser};
use jetbrains_projects::xml::is_closed_text;

fn descriptor() -> IDEProductInfo {
    IDEProductInfo {
        name: "Product".to_string(),
        version: "2024.1".to_string(),
        build_number: "241.1".to_string(),
        ide_type: IDEType::Rider,
        data_directory_name: "Product2024.1".to_string(),
        svg_icon_path: "bin/product.svg".to_string(),
        launch_settings: vec![IDELaunchSettings {
            launcher_path: "bin/product.sh".to_string(),
            startup_wm_class: "jetbrains-product".to_string(),
        }],
    }
}

fn installation() -> Arc<IDEData> {
    Arc::new(IDEData {
        product_info: descriptor(),
        install_dir: "/opt/x".to_string(),
        ide_type: IDEType::Rider,
        version: "2024.1".to_string(),
        config_path: "/home/u/.config/JetBrains/Rider2024.1".to_string(),
        fallback_icon_path: "/opt/rider/bin/rider.svg".to_string(),
        icon_name: "jetbrains-rider".to_string(),
        launcher_path: "/opt/rider/bin/rider.sh".to_string(),
    })
}

fn drain(parser: &mut RecentProjectsParser) -> Vec<Candidate> {
    let mut all = Vec::new();
    while let Some(candidate) = parser.next_candidate() {
        all.push(candidate);
    }
    all
}

fn container(manager: &str, tag: &str) -> String {
    let mut xml = String::new();
    xml.push_str(&format!("<component name=\"{}\">", manager));
    xml.push_str("<option name=\"recentPaths\"><list>");
    xml.push_str(&format!("<option value=\"/{}/paths\" />", tag));
    xml.push_str("</list></option>");
    xml.push_str("<option name=\"additionalInfo\"><map>");
    xml.push_str(&format!("<entry key=\"/{}/info\"><value><RecentProjectMetaInfo>", tag));
    xml.push_str("<option name=\"projectOpenTimestamp\" value=\"1700000000000\" />");
    xml.push_str("</RecentProjectMetaInfo></value></entry>");
    xml.push_str("</map></option>");
    xml.push_str("<option name=\"groups\"><list><ProjectGroup><option name=\"projects\"><list>");
    xml.push_str(&format!("<option value=\"/{}/group\" />", tag));
    xml.push_str("</list></option></ProjectGroup></list></option>");
    xml.push_str("</component>");
    xml
}

fn paths_of(candidates: &[Candidate]) -> Vec<String> {
    candidates
        .iter()
        .map(|c| c.value.clone().or(c.key.clone()).unwrap_or_default())
        .collect()
}

#[test]
fn every_container_and_every_shape_is_found_in_one_document() {
    let mut xml = String::from("<application>");
    xml.push_str(&container("RecentProjectsManager", "a"));
    xml.push_str(&container("RecentDirectoryProjectsManager", "b"));
    xml.push_str(&container("RiderRecentProjectsManager", "c"));
    xml.push_str(&container("RiderRecentDirectoryProjectsManager", "d"));
    xml.push_str("</application>");
    let mut parser = RecentProjectsParser::from_xml(&xml, installation()).unwrap();
    assert_eq!(parser.remaining(), 12);
    let found = drain(&mut parser);
    assert_eq!(
        paths_of(&found),
        vec![
            "/a/paths", "/a/info", "/a/group", "/b/paths", "/b/info", "/b/group", "/c/paths", "/c/info",
            "/c/group", "/d/paths", "/d/info", "/d/group",
        ]
    );
    assert_eq!(parser.remaining(), 0);
}

#[test]
fn each_single_combination_is_found() {
    let managers = [
        "RecentProjectsManager",
        "RecentDirectoryProjectsManager",
        "RiderRecentProjectsManager",
        "RiderRecentDirectoryProjectsManager",
    ];
    let shapes = [
        "<option name=\"recentPaths\"><list><option value=\"/only\" /></list></option>",
        "<option name=\"additionalInfo\"><map><entry key=\"/only\" /></map></option>",
        "<option name=\"groups\"><list><ProjectGroup><option name=\"projects\"><list><option value=\"/only\" /></list></option></ProjectGroup></list></option>",
    ];
    for manager in managers {
        for shape in shapes {
            let xml = format!("<application><component name=\"{}\">{}</component></application>", manager, shape);
            let mut parser = RecentProjectsParser::from_xml(&xml, installation()).unwrap();
            let found = drain(&mut parser);
            assert_eq!(paths_of(&found), vec!["/only"], "{} / {}", manager, shape);
        }
    }
}

#[test]
fn entry_attributes_and_timestamp_are_read_as_written() {
    let xml = "<application><component name=\"RecentProjectsManager\"><option name=\"additionalInfo\"><map>\
        <entry key=\"$USER_HOME$/work/app\"><value><RecentProjectMetaInfo frameTitle=\"app\">\
        <option name=\"build\" value=\"RD-241\" />\
        <option name=\"projectOpenTimestamp\" value=\"1712345678901\" />\
        </RecentProjectMetaInfo></value></entry>\
        </map></option></component></application>";
    let mut parser = RecentProjectsParser::from_xml(xml, installation()).unwrap();
    let candidate = parser.next_candidate().unwrap();
    assert_eq!(candidate.value, None);
    assert_eq!(candidate.key, Some("$USER_HOME$/work/app".to_string()));
    assert_eq!(candidate.opened, Some("1712345678901".to_string()));
    assert!(parser.next_candidate().is_none());
}

#[test]
fn entry_without_meta_info_has_no_timestamp() {
    let xml = "<application><component name=\"RecentProjectsManager\"><option name=\"recentPaths\"><list>\
        <option value=\"/p\" key=\"/q\" />\
        </list></option></component></application>";
    let mut parser = RecentProjectsParser::from_xml(xml, installation()).unwrap();
    let candidate = parser.next_candidate().unwrap();
    assert_eq!(candidate.value, Some("/p".to_string()));
    assert_eq!(candidate.key, Some("/q".to_string()));
    assert_eq!(candidate.opened, None);
}

#[test]
fn only_the_first_container_of_a_name_counts() {
    let xml = "<application>\
        <component name=\"RecentProjectsManager\"><option name=\"recentPaths\"><list><option value=\"/first\" /></list></option></component>\
        <component name=\"RecentProjectsManager\"><option name=\"recentPaths\"><list><option value=\"/second\" /></list></option></component>\
        </application>";
    let mut parser = RecentProjectsParser::from_xml(xml, installation()).unwrap();
    assert_eq!(paths_of(&drain(&mut parser)), vec!["/first"]);
}

#[test]
fn document_without_known_containers_has_no_entries() {
    let xml = "<application><component name=\"SomethingElse\"><option name=\"recentPaths\"><list><option value=\"/p\" /></list></option></component></application>";
    let mut parser = RecentProjectsParser::from_xml(xml, installation()).unwrap();
    assert_eq!(parser.remaining(), 0);
    assert!(parser.next_candidate().is_none());
    assert!(parser.next_candidate().is_none());
}

#[test]
fn malformed_document_is_refused() {
    assert_eq!(
        RecentProjectsParser::from_xml("<application><component></application>", installation()).err(),
        Some(MalformedDocument)
    );
}

#[test]
fn parser_remembers_its_installation() {
    let ide = installation();
    let parser = RecentProjectsParser::from_xml("<application />", Arc::clone(&ide)).unwrap();
    assert!(Arc::ptr_eq(&parser.ide(), &ide));
}

#[test]
fn documents_are_looked_for_under_options() {
    assert_eq!(recent_projects_pattern(), "options/{recentProjects,recentSolutions}.xml");
}

#[test]
fn document_as_the_products_write_it_is_read() {
    let xml = "<?xml version=\"1.0\" encoding=\"UTF-8\"?>\n\
        <application>\n\
          <component name=\"RecentProjectsManager\">\n\
            <option name=\"additionalInfo\">\n\
              <map>\n\
                <entry key=\"$USER_HOME$/work/alpha\">\n\
                  <value>\n\
                    <RecentProjectMetaInfo frameTitle=\"alpha\" projectWorkspaceId=\"2abc\">\n\
                      <option name=\"activationTimestamp\" value=\"1712000000123\" />\n\
                      <option name=\"projectOpenTimestamp\" value=\"1712000000000\" />\n\
                    </RecentProjectMetaInfo>\n\
                  </value>\n\
                </entry>\n\
                <entry key=\"/srv/beta\">\n\
                  <value>\n\
                    <RecentProjectMetaInfo>\n\
                      <option name=\"projectOpenTimestamp\" value=\"1711000000000\" />\n\
                    </RecentProjectMetaInfo>\n\
                  </value>\n\
                </entry>\n\
              </map>\n\
            </option>\n\
            <option name=\"lastOpenedProject\" value=\"$USER_HOME$/work/alpha\" />\n\
          </component>\n\
        </application>\n";
    let mut parser = RecentProjectsParser::from_xml(xml, installation()).unwrap();
    let found = drain(&mut parser);
    assert_eq!(paths_of(&found), vec!["$USER_HOME$/work/alpha", "/srv/beta"]);
    assert_eq!(found[0].opened, Some("1712000000000".to_string()));
    assert_eq!(found[1].opened, Some("1711000000000".to_string()));
}

#[test]
fn entry_with_two_timestamps_gives_the_first() {
    let xml = "<application><component name=\"RecentProjectsManager\"><option name=\"additionalInfo\"><map>\
        <entry key=\"/srv/twice\"><value><RecentProjectMetaInfo>\
        <option name=\"projectOpenTimestamp\" value=\"1712000000001\" />\
        <option name=\"projectOpenTimestamp\" value=\"1712000000002\" />\
        </RecentProjectMetaInfo></value></entry>\
        <entry key=\"/srv/once\"><value><RecentProjectMetaInfo>\
        <option name=\"projectOpenTimestamp\" value=\"1712000000003\" />\
        </RecentProjectMetaInfo></value></entry>\
        </map></option></component></application>";
    let mut parser = RecentProjectsParser::from_xml(xml, installation()).unwrap();
    assert_eq!(parser.remaining(), 2);
    let first = parser.next_candidate().unwrap();
    assert_eq!(first.key, Some("/srv/twice".to_string()));
    assert_eq!(first.opened, Some("1712000000001".to_string()));
    let second = parser.next_candidate().unwrap();
    assert_eq!(second.opened, Some("1712000000003".to_string()));
    assert!(parser.next_candidate().is_none());
}

#[test]
fn entries_are_read_when_the_document_is_parsed() {
    let xml = String::from(
        "<application><component name=\"RecentProjectsManager\"><option name=\"recentPaths\"><list>\
        <option value=\"/a\" /><option value=\"/b\" /><option value=\"/c\" />\
        </list></option></component></application>",
    );
    let mut parser = RecentProjectsParser::from_xml(&xml, installation()).unwrap();
    drop(xml);
    assert_eq!(parser.remaining(), 3);
    assert_eq!(paths_of(&drain(&mut parser)), vec!["/a", "/b", "/c"]);
}

#[test]
fn text_that_breaks_off_inside_a_start_tag_is_refused() {
    for xml in [
        "<a",
        "<a ",
        "<application><component name=\"RecentProjectsManager\"",
        "<application><component name=\"RecentProjectsManager\" \n",
        "<application>\n  <component",
        "<a b=\"1\" c",
        "<a b=\"x>",
        "<a !!!",
    ] {
        assert_eq!(RecentProjectsParser::from_xml(xml, installation()).err(), Some(MalformedDocument), "{:?}", xml);
    }
}

#[test]
fn text_that_does_not_end_with_a_tag_is_refused() {
    for xml in ["", "   \n", "no tags at all", "<a/>trailing", "<a></a", "<a/>\u{0}", "<!-- open"] {
        assert_eq!(RecentProjectsParser::from_xml(xml, installation()).err(), Some(MalformedDocument), "{:?}", xml);
    }
}

#[test]
fn white_space_behind_the_last_tag_is_set_aside() {
    for xml in ["<application/>", "<application/>\n", "<application></application> \t\r\n\n"] {
        let parser = RecentProjectsParser::from_xml(xml, installation()).unwrap();
        assert_eq!(parser.remaining(), 0);
    }
}

#[test]
fn elements_left_open_at_the_end_are_accepted() {
    let xml = "<application><component name=\"RecentProjectsManager\"><option name=\"recentPaths\"><list>\
        <option value=\"/open\" />";
    let mut parser = RecentProjectsParser::from_xml(xml, installation()).unwrap();
    assert_eq!(paths_of(&drain(&mut parser)), vec!["/open"]);
}

#[test]
fn closed_texts_end_with_the_end_of_a_tag() {
    assert!(is_closed_text("<a>"));
    assert!(is_closed_text(">"));
    assert!(is_closed_text("<a/> \n\t\r"));
    assert!(!is_closed_text(""));
    assert!(!is_closed_text(" \n"));
    assert!(!is_closed_text("<a"));
    assert!(!is_closed_text("<a>x"));
    assert!(!is_closed_text("<a>\u{a0}"));
    assert!(!is_closed_text("<a>\u{b}"));
}
