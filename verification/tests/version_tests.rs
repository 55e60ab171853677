use hugoenv::version::{InstallOutcome, InstallPlan, Version, VersionError};

const URL_BASE: &str = "https://github.com/gohugoio/hugo/releases/download";

#[test]
fn bin_file_under_root_versions() {
    let v = Version::new(String::from("0.120.0"), "/root/.hugoenv");
    assert_eq!(v.versions_dir().as_str(), "/root/.hugoenv/versions");
    assert_eq!(v.bin_file().as_str(), "/root/.hugoenv/versions/0.120.0/hugo");
    assert_eq!(v.name().as_str(), "0.120.0");
    assert!(!v.is_system());
}

#[test]
fn paths_ignore_version_validity() {
    let v = Version::new(String::from("not-a-version"), "/r");
    assert_eq!(v.bin_file().as_str(), "/r/versions/not-a-version/hugo");
}

#[test]
fn extended_name_keeps_prefix_in_paths() {
    let v = Version::new(String::from("extended_0.120.0"), "/r");
    assert_eq!(v.bin_file().as_str(), "/r/versions/extended_0.120.0/hugo");
}

#[test]
fn root_with_trailing_slash_joins_cleanly() {
    let v = Version::new(String::from("1.2.3"), "/r/");
    assert_eq!(v.bin_file().as_str(), "/r/versions/1.2.3/hugo");
}

#[test]
fn system_descriptor_is_safe() {
    let v = Version::new(String::from("system"), "/r");
    assert!(v.is_system());
    assert_eq!(v.bin_file().as_str(), "/r/versions/system/hugo");
}

#[test]
fn url_range_below_0_102_0_uses_platform_table() {
    let v = Version::new(String::from("0.101.0"), "/r");
    assert_eq!(
        v.download_url("linux", "x86_64").unwrap(),
        format!("{URL_BASE}/v0.101.0/hugo_0.101.0_Linux-64bit.tar.gz")
    );
    assert_eq!(
        v.download_url("linux", "x86").unwrap(),
        format!("{URL_BASE}/v0.101.0/hugo_0.101.0_Linux-32bit.tar.gz")
    );
    assert_eq!(
        v.download_url("linux", "arm").unwrap(),
        format!("{URL_BASE}/v0.101.0/hugo_0.101.0_Linux-ARM.tar.gz")
    );
    assert_eq!(
        v.download_url("linux", "aarch64").unwrap(),
        format!("{URL_BASE}/v0.101.0/hugo_0.101.0_Linux-ARM64.tar.gz")
    );
    assert_eq!(
        v.download_url("macos", "x86_64").unwrap(),
        format!("{URL_BASE}/v0.101.0/hugo_0.101.0_macOS-64bit.tar.gz")
    );
    assert_eq!(
        v.download_url("macos", "aarch64").unwrap(),
        format!("{URL_BASE}/v0.101.0/hugo_0.101.0_macOS-ARM64.tar.gz")
    );
}

#[test]
fn url_range_below_0_103_0_is_macos_universal() {
    let v = Version::new(String::from("0.102.5"), "/r");
    assert_eq!(
        v.download_url("macos", "x86_64").unwrap(),
        format!("{URL_BASE}/v0.102.5/hugo_0.102.5_macOS-universal.tar.gz")
    );
    assert_eq!(
        v.download_url("macos", "aarch64").unwrap(),
        format!("{URL_BASE}/v0.102.5/hugo_0.102.5_macOS-universal.tar.gz")
    );
}

#[test]
fn url_range_from_0_103_0_is_darwin_universal() {
    let v = Version::new(String::from("0.103.0"), "/r");
    assert_eq!(
        v.download_url("macos", "x86_64").unwrap(),
        format!("{URL_BASE}/v0.103.0/hugo_0.103.0_darwin-universal.tar.gz")
    );
    let w = Version::new(String::from("0.110.0"), "/r");
    assert_eq!(
        w.download_url("macos", "aarch64").unwrap(),
        format!("{URL_BASE}/v0.110.0/hugo_0.110.0_darwin-universal.tar.gz")
    );
}

#[test]
fn boundary_0_102_0_leaves_the_platform_table() {
    let v = Version::new(String::from("0.102.0"), "/r");
    assert_eq!(
        v.download_url("macos", "x86_64").unwrap(),
        format!("{URL_BASE}/v0.102.0/hugo_0.102.0_macOS-universal.tar.gz")
    );
    // the per-architecture Linux artifacts end at 0.102.0, exclusive
    assert!(matches!(
        v.download_url("linux", "x86_64"),
        Err(VersionError::UnsupportedPlatform { .. })
    ));
}

#[test]
fn extended_prefix_kept_in_artifact_name_only() {
    let v = Version::new(String::from("extended_0.101.0"), "/r");
    assert_eq!(
        v.download_url("linux", "x86_64").unwrap(),
        format!("{URL_BASE}/v0.101.0/hugo_extended_0.101.0_Linux-64bit.tar.gz")
    );
}

#[test]
fn unsupported_platforms_never_get_a_url() {
    for name in ["0.101.0", "0.102.5", "0.110.0"] {
        let v = Version::new(String::from(name), "/r");
        match v.download_url("windows", "x86_64") {
            Err(VersionError::UnsupportedPlatform { os, arch }) => {
                assert_eq!(os, "windows");
                assert_eq!(arch, "x86_64");
            },
            other => panic!("expected an unsupported-platform error, got {other:?}"),
        }
    }
    let v = Version::new(String::from("0.102.5"), "/r");
    assert!(matches!(
        v.download_url("linux", "aarch64"),
        Err(VersionError::UnsupportedPlatform { .. })
    ));
}

#[test]
fn invalid_version_never_gets_a_url() {
    let v = Version::new(String::from("not-a-version"), "/r");
    match v.download_url("linux", "x86_64") {
        Err(VersionError::InvalidVersion { name }) => assert_eq!(name, "not-a-version"),
        other => panic!("expected an invalid-version error, got {other:?}"),
    }
    let s = Version::new(String::from("system"), "/r");
    assert!(matches!(
        s.download_url("linux", "x86_64"),
        Err(VersionError::InvalidVersion { .. })
    ));
}

#[test]
fn install_plan_skips_everything_when_installed() {
    let v = Version::new(String::from("0.101.0"), "/r");
    assert!(matches!(
        v.install_plan(true, "linux", "x86_64"),
        Ok(InstallPlan::AlreadyInstalled)
    ));
    // no URL is resolved, so even an unsupported platform stays quiet
    assert!(matches!(
        v.install_plan(true, "windows", "x86_64"),
        Ok(InstallPlan::AlreadyInstalled)
    ));
}

#[test]
fn install_plan_fetches_when_missing() {
    let v = Version::new(String::from("0.101.0"), "/r");
    match v.install_plan(false, "linux", "x86_64") {
        Ok(InstallPlan::Fetch { url }) => {
            assert_eq!(url, format!("{URL_BASE}/v0.101.0/hugo_0.101.0_Linux-64bit.tar.gz"));
        },
        other => panic!("expected a fetch plan, got {other:?}"),
    }
}

#[test]
fn install_unsupported_platform_fails_without_fetching() {
    let v = Version::new(String::from("0.110.0"), "/hugoenv-root-that-does-not-exist");
    assert!(matches!(
        v.install("windows", "x86_64"),
        Err(VersionError::UnsupportedPlatform { .. })
    ));
}

#[test]
fn install_invalid_version_fails_without_fetching() {
    let v = Version::new(String::from("system"), "/hugoenv-root-that-does-not-exist");
    assert!(matches!(v.install("linux", "x86_64"), Err(VersionError::InvalidVersion { .. })));
}

#[test]
fn dispatch_pinned_uninstalled_is_fatal() {
    let v = Version::new(String::from("0.120.0"), "/hugoenv-root-that-does-not-exist");
    match v.binary_to_run() {
        Err(VersionError::NotInstalled { name }) => assert_eq!(name, "0.120.0"),
        other => panic!("expected a not-installed error, got {other:?}"),
    }
    assert!(matches!(v.dispatch_plan(false), Err(VersionError::NotInstalled { .. })));
}

#[test]
fn dispatch_system_defers_to_search_path() {
    let v = Version::new(String::from("system"), "/hugoenv-root-that-does-not-exist");
    assert_eq!(v.binary_to_run().unwrap(), "hugo");
    // installed or not under root/versions, the sentinel never looks there
    assert_eq!(v.dispatch_plan(false).unwrap(), "hugo");
    assert_eq!(v.dispatch_plan(true).unwrap(), "hugo");
}

#[test]
fn dispatch_installed_runs_the_managed_binary() {
    let v = Version::new(String::from("0.120.0"), "/r");
    assert_eq!(v.dispatch_plan(true).unwrap(), "/r/versions/0.120.0/hugo");
}

#[test]
fn pin_contents_are_trimmed() {
    let v = Version::from_pin(Some(String::from("  0.99.1\n")), "/r");
    assert_eq!(v.name().as_str(), "0.99.1");
    assert_eq!(v.bin_file().as_str(), "/r/versions/0.99.1/hugo");
}

#[test]
fn no_pin_resolves_to_system() {
    let v = Version::from_pin(None, "/r");
    assert!(v.is_system());
}

#[test]
fn install_outcomes_compare() {
    assert_eq!(InstallOutcome::AlreadyInstalled, InstallOutcome::AlreadyInstalled);
    assert_ne!(InstallOutcome::AlreadyInstalled, InstallOutcome::Installed);
}

#[test]
fn pin_with_windows_line_ending_is_trimmed() {
    let v = Version::from_pin(Some(String::from("extended_0.101.0\r\n")), "/r");
    assert_eq!(v.name().as_str(), "extended_0.101.0");
    assert!(!v.is_system());
}

#[test]
fn pin_with_unicode_whitespace_is_trimmed() {
    let v = Version::from_pin(Some(String::from("\u{A0}\u{2003}0.99.1\u{2028}\u{0C}")), "/r");
    assert_eq!(v.name().as_str(), "0.99.1");
}
