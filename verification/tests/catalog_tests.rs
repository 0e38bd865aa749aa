//! The criticality taxonomy, the permission catalog and the path helpers.

use super_analyzer::criticality::Criticality;
use super_analyzer::paths;
use super_analyzer::permission::Permission;
use super_analyzer::strutil::parse_u8;

#[test]
fn criticality_parses_its_canonical_names() {
    assert_eq!(Criticality::from_str("warning"), Some(Criticality::Warning));
    assert_eq!(Criticality::from_str("low"), Some(Criticality::Low));
    assert_eq!(Criticality::from_str("medium"), Some(Criticality::Medium));
    assert_eq!(Criticality::from_str("high"), Some(Criticality::High));
    assert_eq!(Criticality::from_str("critical"), Some(Criticality::Critical));
    assert_eq!(Criticality::from_str("invalid_level"), None);
    assert_eq!(Criticality::from_str(""), None);
}

#[test]
fn criticality_parsing_ignores_ascii_case() {
    assert_eq!(Criticality::from_str("WARNING"), Some(Criticality::Warning));
    assert_eq!(Criticality::from_str("Critical"), Some(Criticality::Critical));
    assert_eq!(Criticality::from_str("LoW"), Some(Criticality::Low));
}

#[test]
fn criticality_names_round_trip() {
    let all = [
        Criticality::Warning,
        Criticality::Low,
        Criticality::Medium,
        Criticality::High,
        Criticality::Critical,
    ];
    for c in all {
        assert_eq!(Criticality::from_str(c.name().as_str()), Some(c));
    }
}

#[test]
fn criticality_is_ordered_from_warning_to_critical() {
    assert!(Criticality::Warning.rank() < Criticality::Low.rank());
    assert!(Criticality::Low.rank() < Criticality::Medium.rank());
    assert!(Criticality::Medium.rank() < Criticality::High.rank());
    assert!(Criticality::High.rank() < Criticality::Critical.rank());
}

#[test]
fn the_catalog_resolves_canonical_names_and_nothing_else() {
    assert_eq!(
        Permission::from_str("android.permission.INTERNET"),
        Some(Permission::AndroidPermissionInternet)
    );
    assert_eq!(
        Permission::from_str("android.permission.ACCESS_ALL_EXTERNAL_STORAGE"),
        Some(Permission::AndroidPermissionAccessAllExternalStorage)
    );
    assert_eq!(Permission::from_str("android.permission.internet"), None);
    assert_eq!(Permission::from_str("invalid name"), None);
    assert_eq!(Permission::from_str(""), None);
}

#[test]
fn catalog_names_round_trip() {
    let some = [
        Permission::AndroidPermissionInternet,
        Permission::AndroidPermissionCamera,
        Permission::AndroidPermissionReadSms,
        Permission::AndroidPermissionWriteExternalStorage,
    ];
    for p in some {
        assert_eq!(Permission::from_str(p.name().as_str()), Some(p));
    }
}

#[test]
fn path_join_glues_with_one_separator() {
    assert_eq!(paths::path_join("downloads", "app.apk"), "downloads/app.apk");
    assert_eq!(paths::path_join("downloads/", "app.apk"), "downloads/app.apk");
    assert_eq!(paths::path_join("", "app.apk"), "app.apk");
    assert_eq!(paths::path_join("downloads", "/abs/app.apk"), "/abs/app.apk");
}

#[test]
fn extensions_and_stems_follow_the_file_name() {
    assert_eq!(paths::extension("a/b/app.apk"), Some("apk".to_string()));
    assert_eq!(paths::extension("app."), Some("".to_string()));
    assert_eq!(paths::extension("app"), None);
    assert_eq!(paths::extension(".hidden"), None);
    assert_eq!(paths::extension("dir.d/app"), None);
    assert_eq!(paths::get_package_name("downloads/test_app.apk"), "test_app");
    assert_eq!(paths::get_package_name("test_app"), "test_app");
    assert_eq!(paths::get_package_name(".hidden"), ".hidden");
}

#[test]
fn thread_count_strings_parse_as_bytes() {
    assert_eq!(parse_u8("0"), Some(0));
    assert_eq!(parse_u8("1"), Some(1));
    assert_eq!(parse_u8("255"), Some(255));
    assert_eq!(parse_u8("+7"), Some(7));
    assert_eq!(parse_u8("007"), Some(7));
    assert_eq!(parse_u8("256"), None);
    assert_eq!(parse_u8("99999999999999999999"), None);
    assert_eq!(parse_u8(""), None);
    assert_eq!(parse_u8("+"), None);
    assert_eq!(parse_u8("1a"), None);
    assert_eq!(parse_u8(" 1"), None);
}
