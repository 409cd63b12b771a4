use jetbrains_projects::ide::config_path::{
    choose_config_path, default_config_root, is_usable_config_dir, resolve_config_path,
};
use jetbrains_projects::ide::data::{IDEData, InstallationError};
use jetbrains_projects::ide::product_info::{DescriptorError, IDELaunchSettings, IDEProductInfo};
use jetbrains_projects::ide::properties::{evaluate_property, evaluate_property_in, IDEProperties, PropertyError};
use jetbrains_projects::ide::scan::{
    descriptor_pattern, global_properties_file, global_properties_file_at_home, install, install_dir_of, local_properties_file, scan,
    scan_under, ConfigRoots, FoundDescriptor, SkippedDescriptor,
};
use jetbrains_projects::ide::IDEType;

fn launch(path: &str, class: &str) -> IDELaunchSettings {
    IDELaunchSettings { launcher_path: path.to_string(), startup_wm_class: class.to_string() }
}

fn descriptor(code: &str, data_dir: &str, launches: Vec<IDELaunchSettings>) -> Result<IDEProductInfo, DescriptorError> {
    IDEProductInfo::from_fields(
        "Product".to_string(),
        "2024.1".to_string(),
        "241.1".to_string(),
        code,
        data_dir.to_string(),
        "bin/product.svg".to_string(),
        launches,
    )
}

fn bare_descriptor(ide_type: IDEType, data_dir: &str, launches: Vec<IDELaunchSettings>) -> IDEProductInfo {
    IDEProductInfo {
        name: "Product".to_string(),
        version: "2024.1".to_string(),
        build_number: "241.1".to_string(),
        ide_type,
        data_directory_name: data_dir.to_string(),
        svg_icon_path: "bin/product.svg".to_string(),
        launch_settings: launches,
    }
}

fn roots() -> ConfigRoots {
    ConfigRoots {
        google: Some("/home/u/.config/Google".to_string()),
        jetbrains: Some("/home/u/.config/JetBrains".to_string()),
    }
}

fn properties(path: &str) -> IDEProperties {
    IDEProperties { config_path: Some(path.to_string()) }
}

#[test]
fn descriptor_fields_make_a_descriptor() {
    let info = descriptor("CL", "CLion2024.1", vec![launch("bin/clion.sh", "jetbrains-clion")]).unwrap();
    assert_eq!(info.ide_type, IDEType::CLion);
    assert_eq!(info.name, "Product");
    assert_eq!(info.version, "2024.1");
    assert_eq!(info.build_number, "241.1");
    assert_eq!(info.data_directory_name, "CLion2024.1");
    assert_eq!(info.svg_icon_path, "bin/product.svg");
    assert_eq!(info.launch_settings.len(), 1);
    assert_eq!(info.launch_settings[0].launcher_path, "bin/clion.sh");
}

#[test]
fn descriptor_with_unknown_code_is_refused() {
    assert_eq!(
        descriptor("??", "X", vec![launch("bin/x.sh", "x")]).err(),
        Some(DescriptorError::UnknownProductCode)
    );
    assert_eq!(descriptor("??", "X", Vec::new()).err(), Some(DescriptorError::UnknownProductCode));
}

#[test]
fn descriptor_without_launch_settings_is_refused() {
    assert_eq!(descriptor("CL", "X", Vec::new()).err(), Some(DescriptorError::NoLaunchSettings));
}

#[test]
fn installation_takes_the_first_launch_settings() {
    let info = bare_descriptor(
        IDEType::CLion,
        "CLion2024.1",
        vec![launch("bin/clion.sh", "jetbrains-clion"), launch("bin/other.sh", "other")],
    );
    let data = IDEData::from_product_info(&info, "/opt/clion", "/home/u/.config/JetBrains/CLion2024.1").unwrap();
    assert_eq!(data.ide_type, IDEType::CLion);
    assert_eq!(data.version, "2024.1");
    assert_eq!(data.config_path, "/home/u/.config/JetBrains/CLion2024.1");
    assert_eq!(data.fallback_icon_path, "/opt/clion/bin/product.svg");
    assert_eq!(data.icon_name, "jetbrains-clion");
    assert_eq!(data.launcher_path, "/opt/clion/bin/clion.sh");
    assert_eq!(data.install_dir, "/opt/clion");
    assert_eq!(data.product_info.name, "Product");
    assert_eq!(data.product_info.build_number, "241.1");
    assert_eq!(data.product_info.data_directory_name, "CLion2024.1");
    assert_eq!(data.product_info.launch_settings.len(), 2);
    assert_eq!(data.product_info.launch_settings[1].launcher_path, "bin/other.sh");
}

#[test]
fn installation_needs_launch_settings_and_resolved_directories() {
    let empty = bare_descriptor(IDEType::CLion, "X", Vec::new());
    let good = bare_descriptor(IDEType::CLion, "X", vec![launch("bin/x.sh", "x")]);
    assert_eq!(
        IDEData::from_product_info(&empty, "/opt/x", "/cfg").err(),
        Some(InstallationError::NoLaunchSettings)
    );
    assert_eq!(
        IDEData::from_product_info(&good, "opt/x", "/cfg").err(),
        Some(InstallationError::RelativeInstallDir)
    );
    assert_eq!(
        IDEData::from_product_info(&good, "/opt/x", "cfg").err(),
        Some(InstallationError::UnusableConfigPath)
    );
    assert_eq!(
        IDEData::from_product_info(&good, "/opt/x", "/home/${user.home}/cfg").err(),
        Some(InstallationError::UnusableConfigPath)
    );
}

#[test]
fn default_config_path_depends_on_the_vendor() {
    assert_eq!(default_config_root(IDEType::AndroidStudio), "~/.config/Google");
    assert_eq!(default_config_root(IDEType::CLion), "~/.config/JetBrains");
    assert_eq!(default_config_root(IDEType::IntelliJIDEA), "~/.config/JetBrains");
    assert_eq!(
        choose_config_path(None, None, Some("/home/u/.config/Google"), "AndroidStudio2023.1"),
        Some("/home/u/.config/Google/AndroidStudio2023.1".to_string())
    );
    assert_eq!(
        choose_config_path(None, None, Some("/home/u/.config/JetBrains"), "Rider2024.1"),
        Some("/home/u/.config/JetBrains/Rider2024.1".to_string())
    );
}

#[test]
fn installations_without_overrides_use_the_vendor_directories() {
    let found = vec![
        FoundDescriptor {
            path: "/opt/studio/product-info.json".to_string(),
            product_info: Some(bare_descriptor(IDEType::AndroidStudio, "AndroidStudio2023.1", vec![launch("bin/studio.sh", "jetbrains-studio")])),
            properties: None,
        },
        FoundDescriptor {
            path: "/opt/rider/product-info.json".to_string(),
            product_info: Some(bare_descriptor(IDEType::Rider, "Rider2024.1", vec![launch("bin/rider.sh", "jetbrains-rider")])),
            properties: None,
        },
    ];
    let installations = scan_under(&found, None, &roots());
    assert_eq!(installations.len(), 2);
    assert_eq!(installations[0].config_path, "/home/u/.config/Google/AndroidStudio2023.1");
    assert_eq!(installations[1].config_path, "/home/u/.config/JetBrains/Rider2024.1");
}

#[test]
fn overrides_are_asked_in_order() {
    let global = properties("/global/cfg");
    let local = properties("/local/cfg");
    assert_eq!(
        choose_config_path(Some(&global), Some(&local), Some("/root"), "Data"),
        Some("/global/cfg".to_string())
    );
    assert_eq!(choose_config_path(None, Some(&local), Some("/root"), "Data"), Some("/local/cfg".to_string()));
    let silent = IDEProperties { config_path: None };
    assert_eq!(
        choose_config_path(Some(&silent), Some(&local), Some("/root"), "Data"),
        Some("/local/cfg".to_string())
    );
    assert_eq!(
        choose_config_path(Some(&silent), Some(&silent), Some("/root"), "Data"),
        Some("/root/Data".to_string())
    );
}

#[test]
fn overrides_that_cannot_serve_are_passed_over() {
    let relative = properties("relative/cfg");
    let placeholder = properties("/home/${user.home}/cfg");
    let local = properties("/local/cfg");
    assert_eq!(
        choose_config_path(Some(&relative), Some(&local), Some("/root"), "Data"),
        Some("/local/cfg".to_string())
    );
    assert_eq!(
        choose_config_path(Some(&placeholder), Some(&relative), Some("/root"), "Data"),
        Some("/root/Data".to_string())
    );
    assert_eq!(choose_config_path(Some(&relative), None, Some("root"), "Data"), None);
    assert_eq!(choose_config_path(None, None, None, "Data"), None);
}

#[test]
fn usable_config_dirs_are_absolute_and_substituted() {
    assert!(is_usable_config_dir("/home/u/.config/JetBrains/X"));
    assert!(!is_usable_config_dir("home/u"));
    assert!(!is_usable_config_dir(""));
    assert!(!is_usable_config_dir("~/.config"));
    assert!(!is_usable_config_dir("/a/${user.home}"));
    assert!(is_usable_config_dir("/a/${user.home"));
}

#[test]
fn resolved_config_path_prefers_overrides_whatever_the_environment() {
    let global = properties("/global/cfg");
    let local = properties("/local/cfg");
    assert_eq!(
        resolve_config_path(Some(&global), Some(&local), IDEType::CLion, "CLion"),
        Some("/global/cfg".to_string())
    );
    assert_eq!(
        resolve_config_path(None, Some(&local), IDEType::AndroidStudio, "Studio"),
        Some("/local/cfg".to_string())
    );
    if let Some(path) = resolve_config_path(None, None, IDEType::AndroidStudio, "AndroidStudio2023.1") {
        assert!(path.starts_with('/'));
        assert!(path.ends_with("/.config/Google/AndroidStudio2023.1"));
    }
    if let Some(path) = resolve_config_path(None, None, IDEType::GoLand, "GoLand2024.1") {
        assert!(path.starts_with('/'));
        assert!(path.ends_with("/.config/JetBrains/GoLand2024.1"));
    }
}

#[test]
fn empty_launch_array_is_skipped_and_the_scan_goes_on() {
    let found = vec![
        FoundDescriptor {
            path: "/opt/broken/product-info.json".to_string(),
            product_info: Some(bare_descriptor(IDEType::CLion, "CLion2024.1", Vec::new())),
            properties: None,
        },
        FoundDescriptor {
            path: "/opt/rider/product-info.json".to_string(),
            product_info: Some(bare_descriptor(IDEType::Rider, "Rider2024.1", vec![launch("bin/rider.sh", "jetbrains-rider")])),
            properties: None,
        },
    ];
    assert_eq!(
        install(&found[0], None, &roots()).err(),
        Some(SkippedDescriptor::NotInstallable(InstallationError::NoLaunchSettings))
    );
    let installations = scan_under(&found, None, &roots());
    assert_eq!(installations.len(), 1);
    assert_eq!(installations[0].ide_type, IDEType::Rider);
    assert_eq!(installations[0].launcher_path, "/opt/rider/bin/rider.sh");
}

#[test]
fn unreadable_descriptors_are_skipped_and_the_scan_goes_on() {
    let found = vec![
        FoundDescriptor { path: "/opt/a/product-info.json".to_string(), product_info: None, properties: None },
        FoundDescriptor {
            path: "/opt/go/product-info.json".to_string(),
            product_info: Some(bare_descriptor(IDEType::GoLand, "GoLand2024.1", vec![launch("bin/goland.sh", "jetbrains-goland")])),
            properties: Some(properties("/custom/goland")),
        },
        FoundDescriptor {
            path: "product-info.json".to_string(),
            product_info: Some(bare_descriptor(IDEType::Rider, "Rider", vec![launch("bin/rider.sh", "r")])),
            properties: None,
        },
    ];
    assert_eq!(install(&found[0], None, &roots()).err(), Some(SkippedDescriptor::Unreadable));
    assert_eq!(
        install(&found[2], None, &roots()).err(),
        Some(SkippedDescriptor::NotInstallable(InstallationError::RelativeInstallDir))
    );
    let installations = scan_under(&found, None, &roots());
    assert_eq!(installations.len(), 1);
    assert_eq!(installations[0].config_path, "/custom/goland");
    assert_eq!(installations[0].fallback_icon_path, "/opt/go/bin/product.svg");
}

#[test]
fn descriptor_without_config_path_is_skipped() {
    let found = FoundDescriptor {
        path: "/opt/go/product-info.json".to_string(),
        product_info: Some(bare_descriptor(IDEType::GoLand, "GoLand", vec![launch("bin/goland.sh", "g")])),
        properties: None,
    };
    let none = ConfigRoots { google: None, jetbrains: None };
    assert_eq!(install(&found, None, &none).err(), Some(SkippedDescriptor::NoConfigPath));
    let root_less = FoundDescriptor { path: "/".to_string(), product_info: None, properties: None };
    assert_eq!(install(&root_less, None, &roots()).err(), Some(SkippedDescriptor::NoInstallDir));
}

#[test]
fn global_override_holds_for_every_installation() {
    let found = vec![
        FoundDescriptor {
            path: "/opt/a/product-info.json".to_string(),
            product_info: Some(bare_descriptor(IDEType::CLion, "CLion", vec![launch("bin/clion.sh", "c")])),
            properties: Some(properties("/local/clion")),
        },
        FoundDescriptor {
            path: "/opt/b/product-info.json".to_string(),
            product_info: Some(bare_descriptor(IDEType::AndroidStudio, "Studio", vec![launch("bin/studio.sh", "s")])),
            properties: None,
        },
    ];
    let global = properties("/everything/here");
    let installations = scan_under(&found, Some(&global), &roots());
    assert_eq!(installations.len(), 2);
    assert_eq!(installations[0].config_path, "/everything/here");
    assert_eq!(installations[1].config_path, "/everything/here");
}

#[test]
fn scan_with_the_environment_keeps_overridden_installations() {
    let found = vec![FoundDescriptor {
        path: "/opt/a/product-info.json".to_string(),
        product_info: Some(bare_descriptor(IDEType::CLion, "CLion", vec![launch("bin/clion.sh", "c")])),
        properties: Some(properties("/local/clion")),
    }];
    let installations = scan(&found, None);
    assert_eq!(installations.len(), 1);
    assert_eq!(installations[0].config_path, "/local/clion");
    assert!(scan(&Vec::new(), None).is_empty());
}

#[test]
fn scan_files_lie_where_expected() {
    assert_eq!(descriptor_pattern(), "**/product-info.json");
    assert_eq!(install_dir_of("/opt/clion/product-info.json"), Some("/opt/clion".to_string()));
    assert_eq!(local_properties_file("/opt/clion"), "/opt/clion/bin/idea.properties");
    assert_eq!(global_properties_file("/home/u"), "/home/u/idea.properties");
}

#[test]
fn property_placeholders_are_substituted() {
    assert_eq!(
        evaluate_property_in(Some("${user.home}/.cfg/${user.home}"), Some("/home/u")),
        Ok(Some("/home/u/.cfg//home/u".to_string()))
    );
    assert_eq!(evaluate_property_in(Some("/plain"), Some("/home/u")), Ok(Some("/plain".to_string())));
    assert_eq!(evaluate_property_in(None, Some("/home/u")), Ok(None));
    assert_eq!(evaluate_property_in(None, None), Ok(None));
    assert_eq!(evaluate_property_in(Some("/plain"), None), Err(PropertyError::NoHomeDirectory));
}

#[test]
fn property_evaluation_against_the_environment() {
    assert_eq!(evaluate_property(None), Ok(None));
    match evaluate_property(Some("${user.home}/x")) {
        Ok(Some(path)) => {
            assert!(path.ends_with("/x"));
            assert!(!path.contains("${user.home}"));
        }
        Ok(None) => panic!("a present property stays present"),
        Err(e) => assert_eq!(e, PropertyError::NoHomeDirectory),
    }
}

#[test]
fn properties_come_from_the_config_path_value() {
    let set = IDEProperties::from_config_path_in(Some("${user.home}/cfg"), Some("/home/u")).unwrap();
    assert_eq!(set.config_path, Some("/home/u/cfg".to_string()));
    let unset = IDEProperties::from_config_path_in(None, None).unwrap();
    assert_eq!(unset.config_path, None);
    assert!(IDEProperties::from_config_path_in(Some("/x"), None).is_none());
}

#[test]
fn properties_against_the_environment() {
    assert_eq!(IDEProperties::from_config_path(None).unwrap().config_path, None);
    if let Some(properties) = IDEProperties::from_config_path(Some("${user.home}/cfg")) {
        let path = properties.config_path.unwrap();
        assert!(path.ends_with("/cfg"));
        assert!(!path.contains("${user.home}"));
    }
    if let Some(file) = global_properties_file_at_home() {
        assert!(file.ends_with("idea.properties"));
    }
}

#[test]
fn descriptor_copy_holds_the_same_text() {
    let info = bare_descriptor(IDEType::CLion, "CLion2024.1", vec![launch("bin/a.sh", "a"), launch("bin/b.sh", "b")]);
    let copy = info.duplicate();
    assert_eq!(copy.name, info.name);
    assert_eq!(copy.version, info.version);
    assert_eq!(copy.build_number, info.build_number);
    assert_eq!(copy.ide_type, info.ide_type);
    assert_eq!(copy.data_directory_name, info.data_directory_name);
    assert_eq!(copy.svg_icon_path, info.svg_icon_path);
    assert_eq!(copy.launch_settings.len(), 2);
    assert_eq!(copy.launch_settings[1].launcher_path, "bin/b.sh");
    assert_eq!(copy.launch_settings[1].startup_wm_class, "b");
    assert_eq!(launch("x", "y").duplicate().launcher_path, "x");
}

#[test]
fn default_roots_lie_under_the_home_directory() {
    let roots = ConfigRoots::from_environment();
    if let Some(google) = roots.google {
        assert!(google == ".config/Google" || google.ends_with("/.config/Google"));
        assert!(!google.contains('~'));
    }
    if let Some(jetbrains) = roots.jetbrains {
        assert!(jetbrains == ".config/JetBrains" || jetbrains.ends_with("/.config/JetBrains"));
        assert!(!jetbrains.contains('~'));
    }
}
