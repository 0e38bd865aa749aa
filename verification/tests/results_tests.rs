//! Aggregation, idempotency decisions and the serialization view.

use super_analyzer::config::Config;
use super_analyzer::criticality::Criticality;
use super_analyzer::report::{GeneratorKind, Json};
use super_analyzer::results::{InitAction, Results};
use super_analyzer::vulnerability::Vulnerability;

fn finding(criticality: Criticality, name: &str) -> Vulnerability {
    Vulnerability::new(
        criticality,
        name.to_string(),
        format!("description of {}", name),
        Some("source/file.java".to_string()),
        Some(10),
        Some(12),
        Some("let x = 1;".to_string()),
    )
}

fn fresh_results(config: &Config) -> Results {
    let bytes: Vec<u8> = vec![1, 2, 3, 4, 5];
    Results::init(config, false, Some(&bytes)).unwrap()
}

#[test]
fn init_skips_existing_results_without_force() {
    let config = Config::default();
    assert!(Results::init(&config, true, None).is_none());
    assert_eq!(Results::init_action(&config, true), InitAction::Skip);
}

#[test]
fn init_with_force_always_redoes() {
    let mut config = Config::default();
    config.set_force();
    assert_eq!(Results::init_action(&config, true), InitAction::DeleteThenFresh);
    assert_eq!(Results::init_action(&config, false), InitAction::Fresh);

    let bytes: Vec<u8> = vec![9, 9, 9];
    let results = Results::init(&config, true, Some(&bytes)).unwrap();
    let view = results.serialize_view();
    assert_eq!(view.total_vulnerabilities, 0);
    assert_eq!(view.app_package, "");
}

#[test]
fn init_fails_only_this_package_when_bytes_are_unreadable() {
    let config = Config::default();
    assert!(Results::init(&config, false, None).is_none());
}

#[test]
fn identical_bytes_give_identical_fingerprints() {
    let config = Config::default();
    let a = fresh_results(&config);
    let b = fresh_results(&config);
    assert_eq!(
        a.serialize_view().app_fingerprint,
        b.serialize_view().app_fingerprint
    );

    let other: Vec<u8> = vec![5, 4, 3, 2, 1];
    let c = Results::init(&config, false, Some(&other)).unwrap();
    assert_ne!(
        a.serialize_view().app_fingerprint,
        c.serialize_view().app_fingerprint
    );
}

#[test]
fn a_high_finding_lands_in_the_high_tier_and_nowhere_else() {
    let config = Config::default();
    let mut results = fresh_results(&config);
    results.add_vulnerability(finding(Criticality::High, "exported activity"));

    let view = results.serialize_view();
    assert_eq!(view.highs_len, 1);
    assert_eq!(view.warnings_len, 0);
    assert_eq!(view.lows_len, 0);
    assert_eq!(view.mediums_len, 0);
    assert_eq!(view.criticals_len, 0);
    assert_eq!(view.highs[0].name, "exported activity");
    assert_eq!(view.total_vulnerabilities, 1);
}

#[test]
fn the_total_is_the_sum_of_the_five_tiers() {
    let config = Config::default();
    let mut results = fresh_results(&config);
    results.add_vulnerability(finding(Criticality::Warning, "w1"));
    results.add_vulnerability(finding(Criticality::Warning, "w2"));
    results.add_vulnerability(finding(Criticality::Low, "l1"));
    results.add_vulnerability(finding(Criticality::Medium, "m1"));
    results.add_vulnerability(finding(Criticality::High, "h1"));
    results.add_vulnerability(finding(Criticality::Critical, "c1"));

    let view = results.serialize_view();
    assert_eq!(view.warnings_len, 2);
    assert_eq!(view.lows_len, 1);
    assert_eq!(view.mediums_len, 1);
    assert_eq!(view.highs_len, 1);
    assert_eq!(view.criticals_len, 1);
    assert_eq!(
        view.total_vulnerabilities,
        view.warnings_len + view.lows_len + view.mediums_len + view.highs_len
            + view.criticals_len
    );
}

#[test]
fn adding_the_same_finding_twice_changes_nothing() {
    let config = Config::default();
    let mut once = fresh_results(&config);
    once.add_vulnerability(finding(Criticality::Medium, "weak hash"));

    let mut twice = fresh_results(&config);
    twice.add_vulnerability(finding(Criticality::Medium, "weak hash"));
    twice.add_vulnerability(finding(Criticality::Medium, "weak hash"));

    let a = once.serialize_view();
    let b = twice.serialize_view();
    assert_eq!(a.mediums_len, b.mediums_len);
    assert_eq!(a.total_vulnerabilities, b.total_vulnerabilities);
    assert_eq!(a.mediums.len(), 1);
    assert_eq!(a.mediums[0].name, b.mediums[0].name);
}

#[test]
fn discovery_order_does_not_change_the_view() {
    let config = Config::default();
    let mut ab = fresh_results(&config);
    ab.add_vulnerability(finding(Criticality::High, "alpha"));
    ab.add_vulnerability(finding(Criticality::High, "beta"));

    let mut ba = fresh_results(&config);
    ba.add_vulnerability(finding(Criticality::High, "beta"));
    ba.add_vulnerability(finding(Criticality::High, "alpha"));

    let a = ab.serialize_view();
    let b = ba.serialize_view();
    assert_eq!(a.highs_len, b.highs_len);
    assert_eq!(a.highs[0].name, b.highs[0].name);
    assert_eq!(a.highs[1].name, b.highs[1].name);
    assert_eq!(a.highs[0].name, "alpha");
    assert_eq!(a.highs[1].name, "beta");
}

#[test]
fn report_generation_mirrors_the_idempotency_check() {
    let config = Config::default();
    let mut results = fresh_results(&config);
    results.set_app_package("test_app".to_string());

    assert!(results.generate_report(&config, true).is_none());

    let plan = results.generate_report(&config, false).unwrap();
    assert!(!plan.delete_first);
    assert_eq!(plan.output_dir, "results/test_app");
    assert_eq!(
        plan.generators,
        vec![GeneratorKind::MachineReadable, GeneratorKind::HumanReadable]
    );

    let mut forced = Config::default();
    forced.set_force();
    let plan = results.generate_report(&forced, true).unwrap();
    assert!(plan.delete_first);
}

#[test]
fn the_machine_readable_report_lands_in_the_package_directory() {
    let config = Config::default();
    let mut results = fresh_results(&config);
    results.set_app_package("test_app".to_string());
    let json = Json::new();
    assert_eq!(
        json.output_file(&config, &results),
        "results/test_app/results.json"
    );
}

#[test]
fn results_path_is_named_by_the_package_stem() {
    let config = Config::default();
    assert_eq!(
        Results::results_path(&config, "downloads/test_app.apk"),
        "results/test_app"
    );
}

#[test]
fn metadata_setters_reach_the_view() {
    let config = Config::default();
    let mut results = fresh_results(&config);
    results.set_app_package("com.example.app".to_string());
    results.set_app_label("Example".to_string());
    results.set_app_description("An example application".to_string());
    results.set_app_version("1.2.3".to_string());
    results.set_app_version_num(10203);
    results.set_app_min_sdk(16);
    results.set_app_target_sdk(25);
    results.set_certificate("certificate text".to_string());
    assert_eq!(results.get_app_package(), "com.example.app");

    let view = results.serialize_view();
    assert_eq!(view.app_package, "com.example.app");
    assert_eq!(view.app_version, "1.2.3");
    assert_eq!(view.app_version_num, 10203);
    assert_eq!(view.app_min_sdk, 16);
    assert_eq!(view.app_target_sdk, Some(25));
    assert_eq!(view.certificate, "certificate text");
}
