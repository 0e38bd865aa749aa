//! The resolver end to end: layered files, command line, environment
//! probe, directory listings and resource checking.

use super_analyzer::config::{
    CliOverrides, Config, ConfigError, EnvProbe, ResourceError, ResourceStatus,
};

fn plain_cli() -> CliOverrides {
    CliOverrides {
        verbose: false,
        quiet: false,
        force: false,
        bench: false,
        open: false,
        test_all: false,
        threads: None,
        downloads: None,
        dist: None,
        results: None,
        apktool: None,
        dex2jar: None,
        jd_cmd: None,
        template: None,
        rules: None,
        package: Some("test_app".to_string()),
    }
}

fn bare_probe() -> EnvProbe {
    EnvProbe {
        etc_rules_exists: false,
        share_path: None,
    }
}

#[test]
fn layers_override_field_by_field() {
    let system = "threads = 4\ndist_folder = \"system_dist\"";
    let local = "threads = 8";
    let mut cli = plain_cli();
    cli.results = Some("cli_results".to_string());

    let config = Config::from_cli(cli, &bare_probe(), Some(system), Some(local)).unwrap();

    assert_eq!(config.get_threads(), 8);
    assert_eq!(config.get_dist_folder(), "system_dist");
    assert_eq!(config.get_results_folder(), "cli_results");
    assert_eq!(
        config.get_loaded_config_files().as_slice(),
        &["/etc/config.toml".to_string(), "config.toml".to_string()]
    );
    assert_eq!(config.get_app_packages(), vec!["./test_app.apk".to_string()]);
}

#[test]
fn a_bad_field_reverts_to_the_previous_layer() {
    let system = "threads = 4";
    let local = "threads = 0";
    let config =
        Config::from_cli(plain_cli(), &bare_probe(), Some(system), Some(local)).unwrap();
    assert_eq!(config.get_threads(), 4);
    assert_eq!(config.get_warnings().len(), 1);
}

#[test]
fn a_broken_file_aborts_resolution() {
    let r = Config::from_cli(plain_cli(), &bare_probe(), Some("not [ toml"), None);
    assert_eq!(r.unwrap_err(), ConfigError::Parse);
}

#[test]
fn the_environment_probe_shapes_the_defaults() {
    let probe = EnvProbe {
        etc_rules_exists: true,
        share_path: Some("/usr/share/super".to_string()),
    };
    let config = Config::from_cli(plain_cli(), &probe, None, None).unwrap();
    assert_eq!(config.get_rules_json(), "/etc/super/rules.json");
    assert_eq!(
        config.get_apktool_file(),
        "/usr/share/super/vendor/apktool_2.2.0.jar"
    );
    assert_eq!(
        config.get_dex2jar_folder(),
        "/usr/share/super/vendor/dex2jar-2.1-SNAPSHOT"
    );
    assert_eq!(config.get_jd_cmd_file(), "/usr/share/super/vendor/jd-cmd.jar");
    assert_eq!(config.get_templates_folder(), "/usr/share/super/templates");
}

#[test]
fn test_all_enqueues_every_archive_in_the_listing() {
    let mut cli = plain_cli();
    cli.test_all = true;
    cli.package = None;
    let mut config = Config::from_cli(cli, &bare_probe(), None, None).unwrap();
    assert!(config.get_app_packages().is_empty());

    let listing = vec![
        "one.apk".to_string(),
        "notes.txt".to_string(),
        "two.apk".to_string(),
        "subdir".to_string(),
    ];
    config.read_apks(&listing);
    assert_eq!(
        config.get_app_packages(),
        vec!["./one.apk".to_string(), "./two.apk".to_string()]
    );
}

#[test]
fn check_and_get_errors_agree() {
    let config = Config::from_cli(plain_cli(), &bare_probe(), None, None).unwrap();
    let all_there = ResourceStatus {
        downloads_folder: true,
        dist_folder: true,
        results_folder: true,
        apktool_file: true,
        dex2jar_folder: true,
        jd_cmd_file: true,
        templates_folder: true,
        template: true,
        rules_json: true,
        packages: vec![true],
    };
    assert!(config.check(&all_there));
    assert!(config.get_errors(&all_there).is_empty());

    let missing = ResourceStatus {
        downloads_folder: false,
        dist_folder: false,
        results_folder: true,
        apktool_file: true,
        dex2jar_folder: true,
        jd_cmd_file: true,
        templates_folder: true,
        template: false,
        rules_json: true,
        packages: vec![false],
    };
    assert!(!config.check(&missing));
    let errors = config.get_errors(&missing);
    assert_eq!(errors.len(), 4);
    assert!(matches!(&errors[0], ResourceError::DownloadsFolder(p) if p == "."));
    assert!(matches!(&errors[1], ResourceError::DistFolder(p) if p == "dist"));
    assert!(matches!(&errors[2], ResourceError::Package(p) if p == "./test_app.apk"));
    assert!(
        matches!(&errors[3], ResourceError::Template(t, f) if t == "super" && f == "templates")
    );
}
