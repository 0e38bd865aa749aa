//! Configuration resolution, section by section.

use super_analyzer::config::{CliOverrides, Config, ConfigWarning};
use super_analyzer::criticality::Criticality;
use super_analyzer::document::{ConfigValue, FieldValue, TableField, TableItem};
use super_analyzer::permission::Permission;

fn str_value(s: &str) -> ConfigValue {
    ConfigValue::Str(s.to_string())
}

fn field(key: &str, value: &str) -> TableField {
    TableField {
        key: key.to_string(),
        value: FieldValue::Str(value.to_string()),
    }
}

#[test]
fn it_config() {
    let mut config = Config::default();

    assert!(config.get_app_packages().is_empty());
    assert!(!config.is_verbose());
    assert!(!config.is_quiet());
    assert!(!config.is_force());
    assert!(!config.is_bench());
    assert!(!config.is_open());
    assert_eq!(config.get_threads(), 2);
    assert_eq!(config.downloads_folder, ".");
    assert_eq!(config.get_dist_folder(), "dist");
    assert_eq!(config.get_results_folder(), "results");
    assert_eq!(config.get_template_name(), "super");
    assert_eq!(config.get_apktool_file(), "vendor/apktool_2.2.0.jar");
    assert_eq!(config.get_dex2jar_folder(), "vendor/dex2jar-2.1-SNAPSHOT");
    assert_eq!(config.get_jd_cmd_file(), "vendor/jd-cmd.jar");
    assert_eq!(config.get_templates_folder(), "templates");
    assert_eq!(config.get_template_path(), "templates/super");
    assert_eq!(config.get_rules_json(), "rules.json");
    assert_eq!(config.get_unknown_permission_criticity(), Criticality::Low);
    assert_eq!(
        config.get_unknown_permission_description(),
        "Even if the application can create its own permissions, it's discouraged, \
         since it can lead to missunderstanding between developers."
    );
    assert!(config.get_permissions().is_empty());

    config.add_app_package("test_app");
    config.verbose = true;
    config.quiet = true;
    config.force = true;
    config.bench = true;
    config.open = true;

    let packages = config.get_app_packages();
    assert_eq!(packages[0], "./test_app.apk");
    assert!(config.is_verbose());
    assert!(config.is_quiet());
    assert!(config.is_force());
    assert!(config.is_bench());
    assert!(config.is_open());

    config.reset_force();
    assert!(!config.is_force());

    config.overall_force = true;
    config.reset_force();
    assert!(config.is_force());

    config.set_force();
    assert!(config.is_force());
}

#[test]
fn it_config_sample() {
    let sample = r#"
threads = 2
downloads_folder = "downloads"
dist_folder = "dist"
results_folder = "results"
apktool_file = "/usr/share/super/vendor/apktool_2.2.0.jar"
dex2jar_folder = "/usr/share/super/vendor/dex2jar-2.1-SNAPSHOT"
jd_cmd_file = "/usr/share/super/vendor/jd-cmd.jar"
templates_folder = "/usr/share/super/templates"
template = "super"
rules_json = "/etc/super/rules.json"

[[permissions]]
name = "android.permission.INTERNET"
criticity = "warning"
label = "Internet permission"
description = "Allows the app to create network sockets and use custom network protocols. The browser and other applications provide means to send data to the internet, so this permission is not required to send data to the internet. Check if the permission is actually needed."
"#;
    let mut config = Config::default();
    config.load_from_str(sample).unwrap();
    config.add_app_package("test_app");

    assert_eq!(config.get_threads(), 2);
    assert_eq!(config.downloads_folder, "downloads");
    assert_eq!(config.get_dist_folder(), "dist");
    assert_eq!(config.get_results_folder(), "results");
    assert_eq!(
        config.get_apktool_file(),
        "/usr/share/super/vendor/apktool_2.2.0.jar"
    );
    assert_eq!(
        config.get_dex2jar_folder(),
        "/usr/share/super/vendor/dex2jar-2.1-SNAPSHOT"
    );
    assert_eq!(
        config.get_jd_cmd_file(),
        "/usr/share/super/vendor/jd-cmd.jar"
    );
    assert_eq!(config.get_templates_folder(), "/usr/share/super/templates");
    assert_eq!(config.get_template_path(), "/usr/share/super/templates/super");
    assert_eq!(config.get_template_name(), "super");
    assert_eq!(config.get_rules_json(), "/etc/super/rules.json");
    assert_eq!(config.get_unknown_permission_criticity(), Criticality::Low);
    assert_eq!(
        config.get_unknown_permission_description(),
        "Even if the application can create its own permissions, it's discouraged, \
         since it can lead to missunderstanding between developers."
    );

    let permissions = config.get_permissions();
    assert_eq!(permissions.len(), 1);
    let permission = &permissions[0];
    assert_eq!(
        permission.get_permission(),
        Permission::AndroidPermissionInternet
    );
    assert_eq!(permission.get_criticity(), Criticality::Warning);
    assert_eq!(permission.get_label(), "Internet permission");
    assert_eq!(
        permission.get_description(),
        "Allows the app to create network sockets and use custom network protocols. \
         The browser and other applications provide means to send data to the \
         internet, so this permission is not required to send data to the internet. \
         Check if the permission is actually needed."
    );
}

#[test]
fn it_loads_apktool_file_section_if_it_is_well_formed() {
    let mut final_config = Config::default();
    let value = str_value("/some/path/to/apktool.jar");

    final_config.load_apktool_file_section(&value);

    assert_eq!("/some/path/to/apktool.jar", final_config.get_apktool_file());
}

#[test]
fn it_do_not_load_apktool_file_section_if_it_is_not_well_formed() {
    let default_config = Config::default();
    let mut final_config = Config::default();

    let values = vec![str_value("/some/invalid/apktool.jpg"), ConfigValue::Int(20)];

    for value in values {
        final_config.load_apktool_file_section(&value);
        assert_eq!(
            default_config.get_apktool_file(),
            final_config.get_apktool_file()
        );
    }
}

#[test]
fn it_loads_jd_cmd_file_section_if_it_is_well_formed() {
    let mut final_config = Config::default();
    let value = str_value("/some/path/to/jd-cmd.jar");

    final_config.load_jd_cmd_file_section(&value);

    assert_eq!("/some/path/to/jd-cmd.jar", final_config.get_jd_cmd_file());
}

#[test]
fn it_do_not_load_jd_cmd_file_section_if_it_is_not_well_formed() {
    let default_config = Config::default();
    let mut final_config = Config::default();

    let values = vec![str_value("/some/invalid/js_cmd.jpg"), ConfigValue::Int(20)];

    for value in values {
        final_config.load_jd_cmd_file_section(&value);
        assert_eq!(
            default_config.get_jd_cmd_file(),
            final_config.get_jd_cmd_file()
        );
    }
}

#[test]
fn it_loads_threads_section_if_it_is_well_formed() {
    let default_config = Config::default();
    let mut final_config = Config::default();
    let value = ConfigValue::Int((default_config.get_threads() + 1) as i64);

    final_config.load_threads_section(&value);

    assert_eq!(default_config.get_threads() + 1, final_config.get_threads());
}

#[test]
fn it_do_not_loads_threads_section_if_it_is_not_well_formed() {
    let default_config = Config::default();
    let mut final_config = Config::default();

    // 256 is just over the ceiling; a TOML float reduces to a value the
    // resolver does not read.
    let values = vec![ConfigValue::Int(256), ConfigValue::Other];

    for value in values {
        final_config.load_threads_section(&value);
        assert_eq!(default_config.get_threads(), final_config.get_threads());
    }
}

#[test]
fn it_loads_string_data_on_some_sections() {
    let mut final_config = Config::default();
    let str_value_text = "Valid string";

    final_config.load_downloads_folder_section(&str_value(str_value_text));
    final_config.load_dist_folder_section(&str_value(str_value_text));
    final_config.load_results_folder_section(&str_value(str_value_text));
    final_config.load_dex2jar_folder_section(&str_value(str_value_text));
    final_config.load_templates_folder_section(&str_value(str_value_text));
    final_config.load_template_section(&str_value(str_value_text));

    assert_eq!(final_config.downloads_folder, str_value_text);
    assert_eq!(final_config.get_dist_folder(), str_value_text);
    assert_eq!(final_config.get_results_folder(), str_value_text);
    assert_eq!(final_config.get_dex2jar_folder(), str_value_text);
    assert_eq!(final_config.get_templates_folder(), str_value_text);
    assert_eq!(final_config.get_template_name(), str_value_text);
}

#[test]
fn it_loads_rules_section_if_it_is_well_formed() {
    let mut final_config = Config::default();
    let value = str_value("/some/path/to/rules.json");

    final_config.load_rules_section(&value);

    assert_eq!("/some/path/to/rules.json", final_config.get_rules_json());
}

#[test]
fn it_do_not_load_rules_section_if_it_is_not_well_formed() {
    let default_config = Config::default();
    let mut final_config = Config::default();

    let values = vec![str_value("/some/invalid/rules.jpg"), ConfigValue::Int(20)];

    for value in values {
        final_config.load_rules_section(&value);
        assert_eq!(default_config.get_rules_json(), final_config.get_rules_json());
    }
}

#[test]
fn it_do_not_load_permissions_if_they_are_not_well_formed() {
    let default_config = Config::default();
    let mut final_config = Config::default();

    let permission_without_name = TableItem::Table(vec![]);

    let permission_invalid_criticity = TableItem::Table(vec![
        field("name", "permission_name"),
        field("criticity", "invalid_level"),
    ]);

    let permission_without_criticity =
        TableItem::Table(vec![field("name", "permission_name")]);

    let permission_without_label = TableItem::Table(vec![
        field("name", "permission_name"),
        field("criticity", "low"),
        field("description", "permission description"),
    ]);

    let permission_unknown_too_much_values = TableItem::Table(vec![
        field("name", "unknown"),
        field("criticity", "low"),
        field("description", "permission description"),
        field("additional_field", "additional field data"),
    ]);

    let permission_known_too_much_values = TableItem::Table(vec![
        field("name", "android.permission.ACCESS_ALL_EXTERNAL_STORAGE"),
        field("criticity", "low"),
        field("description", "permission description"),
        field("label", "label"),
        field("additional_field", "additional field data"),
    ]);

    let permission_known_name_not_found = TableItem::Table(vec![
        field("name", "invalid name"),
        field("criticity", "low"),
        field("description", "permission description"),
        field("label", "label"),
    ]);

    let permission_without_label_field = TableItem::Table(vec![
        field("name", "invalid name"),
        field("criticity", "low"),
        field("description", "permission description"),
        field("additional_field", "additional field data"),
    ]);

    let permissions = vec![
        TableItem::NotTable,
        permission_without_name,
        permission_invalid_criticity,
        permission_without_criticity,
        permission_without_label,
        permission_unknown_too_much_values,
        permission_known_too_much_values,
        permission_known_name_not_found,
        permission_without_label_field,
    ];

    for p in permissions {
        final_config.load_permissions(&ConfigValue::Arr(vec![p]));

        assert_eq!(
            default_config.get_permissions().len(),
            final_config.get_permissions().len()
        );
        assert_eq!(
            default_config.get_unknown_permission_criticity(),
            final_config.get_unknown_permission_criticity()
        );
        assert_eq!(
            default_config.get_unknown_permission_description(),
            final_config.get_unknown_permission_description()
        );
    }
}

#[test]
fn it_loads_an_unknown_permission() {
    let mut final_config = Config::default();

    let unknown_permission = TableItem::Table(vec![
        field("name", "unknown"),
        field("criticity", "low"),
        field("description", "permission description"),
    ]);

    final_config.load_permissions(&ConfigValue::Arr(vec![unknown_permission]));
    assert_eq!(
        final_config.get_unknown_permission_criticity(),
        Criticality::from_str("low").unwrap()
    );
    assert_eq!(
        final_config.get_unknown_permission_description(),
        "permission description"
    );
}

#[test]
fn it_loads_an_known_permission() {
    let mut final_config = Config::default();

    let known_permission = TableItem::Table(vec![
        field("name", "android.permission.ACCESS_ALL_EXTERNAL_STORAGE"),
        field("criticity", "low"),
        field("description", "permission description"),
        field("label", "label"),
    ]);

    final_config.load_permissions(&ConfigValue::Arr(vec![known_permission]));

    assert_eq!(final_config.get_permissions().len(), 1);
}

#[test]
fn threads_zero_in_a_file_falls_back_with_one_warning() {
    let mut config = Config::default();
    config.load_from_str("threads = 0").unwrap();

    assert_eq!(config.get_threads(), 2);
    assert_eq!(config.get_warnings().len(), 1);
    assert!(matches!(config.get_warnings()[0], ConfigWarning::Threads));
}

#[test]
fn a_structurally_broken_file_is_fatal_and_changes_nothing() {
    let mut config = Config::default();
    let r = config.load_from_str("threads = [ not toml");
    assert!(r.is_err());
    assert_eq!(config.get_threads(), 2);
    assert_eq!(config.get_warnings().len(), 0);
}

#[test]
fn an_unknown_key_warns_and_is_ignored() {
    let mut config = Config::default();
    config.load_from_str("mystery_key = 7").unwrap();
    assert_eq!(config.get_warnings().len(), 1);
    assert!(matches!(
        config.get_warnings()[0],
        ConfigWarning::UnknownKey(_)
    ));
}

#[test]
fn first_permission_declaration_wins() {
    let mut config = Config::default();
    let first = TableItem::Table(vec![
        field("name", "android.permission.INTERNET"),
        field("criticity", "high"),
        field("description", "first description"),
        field("label", "first label"),
    ]);
    let second = TableItem::Table(vec![
        field("name", "android.permission.INTERNET"),
        field("criticity", "low"),
        field("description", "second description"),
        field("label", "second label"),
    ]);
    config.load_permissions(&ConfigValue::Arr(vec![first, second]));

    let permissions = config.get_permissions();
    assert_eq!(permissions.len(), 1);
    assert_eq!(permissions[0].get_criticity(), Criticality::High);
    assert_eq!(permissions[0].get_label(), "first label");
    assert_eq!(permissions[0].get_description(), "first description");
}

#[test]
fn rules_are_ordered_by_permission_identity() {
    let mut config = Config::default();
    let internet = TableItem::Table(vec![
        field("name", "android.permission.INTERNET"),
        field("criticity", "warning"),
        field("description", "d1"),
        field("label", "l1"),
    ]);
    let camera = TableItem::Table(vec![
        field("name", "android.permission.CAMERA"),
        field("criticity", "high"),
        field("description", "d2"),
        field("label", "l2"),
    ]);
    config.load_permissions(&ConfigValue::Arr(vec![internet, camera]));

    let permissions = config.get_permissions();
    assert_eq!(permissions.len(), 2);
    assert_eq!(
        permissions[0].get_permission(),
        Permission::AndroidPermissionCamera
    );
    assert_eq!(
        permissions[1].get_permission(),
        Permission::AndroidPermissionInternet
    );
}

#[test]
fn cli_threads_override_accepts_valid_and_keeps_invalid() {
    let cases: Vec<(&str, u8, usize)> = vec![
        ("7", 7, 0),
        ("255", 255, 0),
        ("1", 1, 0),
        ("0", 2, 1),
        ("256", 2, 1),
        ("abc", 2, 1),
        ("", 2, 1),
    ];
    for (text, expected, warnings) in cases {
        let mut config = Config::default();
        let cli = CliOverrides {
            verbose: false,
            quiet: false,
            force: false,
            bench: false,
            open: false,
            test_all: false,
            threads: Some(text.to_string()),
            downloads: None,
            dist: None,
            results: None,
            apktool: None,
            dex2jar: None,
            jd_cmd: None,
            template: None,
            rules: None,
            package: None,
        };
        config.set_options(&cli);
        assert_eq!(config.get_threads(), expected, "threads {:?}", text);
        assert_eq!(config.get_warnings().len(), warnings, "warnings {:?}", text);
    }
}

#[test]
fn empty_path_strings_warn_and_keep_the_previous_value() {
    let default_config = Config::default();
    let mut final_config = Config::default();
    let empty = str_value("");

    final_config.load_downloads_folder_section(&empty);
    final_config.load_dist_folder_section(&empty);
    final_config.load_results_folder_section(&empty);
    final_config.load_dex2jar_folder_section(&empty);
    final_config.load_templates_folder_section(&empty);
    final_config.load_template_section(&empty);
    final_config.load_apktool_file_section(&empty);
    final_config.load_jd_cmd_file_section(&empty);
    final_config.load_rules_section(&empty);

    assert_eq!(final_config.downloads_folder, default_config.downloads_folder);
    assert_eq!(final_config.get_dist_folder(), default_config.get_dist_folder());
    assert_eq!(
        final_config.get_results_folder(),
        default_config.get_results_folder()
    );
    assert_eq!(
        final_config.get_dex2jar_folder(),
        default_config.get_dex2jar_folder()
    );
    assert_eq!(
        final_config.get_templates_folder(),
        default_config.get_templates_folder()
    );
    assert_eq!(
        final_config.get_template_name(),
        default_config.get_template_name()
    );
    assert_eq!(
        final_config.get_apktool_file(),
        default_config.get_apktool_file()
    );
    assert_eq!(final_config.get_jd_cmd_file(), default_config.get_jd_cmd_file());
    assert_eq!(final_config.get_rules_json(), default_config.get_rules_json());
    assert_eq!(final_config.get_warnings().len(), 9);
}
