use offline_vsix::extensions::info::ExtensionInfo;
use offline_vsix::extensions::version_map::VersionMap;
use offline_vsix::extensions::platform::{
    decide_target, get_current, resolve, versions_comparable,
};

fn pattern1() -> ExtensionInfo {
    ExtensionInfo {
        arch_versions: {
            let mut map = VersionMap::new();
            map.insert(None, "10.1.0".to_string());
            map.insert(Some("win32-x64".to_string()), "10.1.0".to_string());
            map.insert(Some("win32-arm64".to_string()), "10.1.0".to_string());
            map.insert(Some("linux-x64".to_string()), "10.1.0".to_string());
            map.insert(Some("linux-arm64".to_string()), "10.1.3".to_string());
            map.insert(Some("web".to_string()), "10.1.0".to_string());
            map.insert(Some("aarch64".to_string()), "10.1.0".to_string());
            map
        },
    }
}

fn decided(expected: Option<&str>, target: Option<&str>) {
    let arch_versions = pattern1().arch_versions;
    let current = "linux-x64".to_string();
    let info = ExtensionInfo { arch_versions };
    assert_eq!(
        expected,
        decide_target(target, current, info.clone()).as_deref()
    );
}

#[test]
fn test_when_current_is_supported_with_unknown_override() {
    decided(None, Some("test"));
}

#[test]
fn test_when_current_is_supported_with_web_override() {
    decided(Some("web"), Some("web"));
}

#[test]
fn test_when_current_is_supported_with_win32_override() {
    decided(Some("win32-x64"), Some("win32-x64"));
}

#[test]
fn test_when_current_is_supported_with_linux_override() {
    decided(Some("linux-x64"), Some("linux-x64"));
}

#[test]
fn platform_test_when_current_is_not_supported() {
    let current = "linux-x64".to_string();
    let mut arch_versions = VersionMap::new();
    arch_versions.insert(Some("x64".to_string()), "ver".to_string());
    arch_versions.insert(Some("x86".to_string()), "ver".to_string());
    let info = ExtensionInfo { arch_versions };
    assert_eq!(None, decide_target(None, current.clone(), info.clone()));
    assert_eq!(
        Some("x64".to_string()),
        decide_target(Some("x64"), current.clone(), info.clone())
    );
    assert_eq!(None, decide_target(Some(&current), current.clone(), info));
}

#[test]
fn platform_test_when_no_supported_architectures() {
    let current = "linux-x64".to_string();
    let info = ExtensionInfo {
        arch_versions: VersionMap::new(),
    };
    assert_eq!(None, decide_target(None, current.clone(), info.clone()));
    assert_eq!(None, decide_target(Some("x64"), current, info));
}

fn versions(entries: &[(Option<&str>, &str)]) -> ExtensionInfo {
    let mut arch_versions = VersionMap::new();
    for (platform, version) in entries {
        arch_versions.insert(platform.map(|name| name.to_string()), version.to_string());
    }
    ExtensionInfo { arch_versions }
}

#[test]
fn decide_target_compares_with_the_agnostic_release() {
    let current = "linux-arm64".to_string();
    assert_eq!(
        decide_target(None, current.clone(), pattern1()),
        Some("linux-arm64".to_string())
    );
    let current = "linux-x64".to_string();
    assert_eq!(decide_target(None, current, pattern1()), None);
    let current = "darwin-x64".to_string();
    assert_eq!(decide_target(None, current, pattern1()), None);
}

#[test]
fn resolve_fails_without_the_current_platform() {
    let info = versions(&[(None, "1.0.0")]);
    assert!(resolve("linux-x64", None, &info).is_none());
}

#[test]
fn resolve_takes_the_newer_platform_build() {
    let info = versions(&[(Some("linux-x64"), "2.0.0"), (None, "1.0.0")]);
    let target = resolve("linux-x64", None, &info).unwrap();
    assert_eq!(target.platform, Some("linux-x64".to_string()));
    assert_eq!(target.version, "2.0.0");
}

#[test]
fn resolve_fails_where_the_agnostic_release_is_newer() {
    let info = versions(&[(Some("linux-x64"), "1.0.0"), (None, "2.0.0")]);
    assert!(resolve("linux-x64", None, &info).is_none());
}

#[test]
fn resolve_fails_where_the_two_versions_are_the_same() {
    let info = versions(&[(Some("linux-x64"), "1.0.0"), (None, "1.0.0")]);
    assert!(resolve("linux-x64", None, &info).is_none());
}

#[test]
fn resolve_takes_the_platform_build_where_nothing_else_is_listed() {
    let info = versions(&[(Some("linux-x64"), "ver"), (Some("web"), "1.0.0")]);
    let target = resolve("linux-x64", None, &info).unwrap();
    assert_eq!(target.platform, Some("linux-x64".to_string()));
    assert_eq!(target.version, "ver");
}

#[test]
fn resolve_takes_the_override_if_it_is_listed() {
    let info = versions(&[
        (Some("linux-x64"), "1.0.0"),
        (Some("win32-x64"), "0.9.0"),
        (None, "2.0.0"),
    ]);
    let target = resolve("linux-x64", Some("win32-x64"), &info).unwrap();
    assert_eq!(target.platform, Some("win32-x64".to_string()));
    assert_eq!(target.version, "0.9.0");
    assert!(resolve("linux-x64", Some("darwin-x64"), &info).is_none());
    assert!(resolve("linux-x64", Some(""), &info).is_none());
}

#[test]
fn resolve_fails_on_an_empty_map() {
    let info = versions(&[]);
    assert!(resolve("linux-x64", None, &info).is_none());
    assert!(resolve("linux-x64", Some("linux-x64"), &info).is_none());
}

#[test]
fn resolve_gives_the_same_twice() {
    let info = versions(&[(Some("linux-x64"), "2.0.0"), (None, "1.0.0")]);
    let first = resolve("linux-x64", None, &info).unwrap();
    let second = resolve("linux-x64", None, &info).unwrap();
    assert_eq!(first.platform, second.platform);
    assert_eq!(first.version, second.version);
    assert!(resolve("web", None, &info).is_none());
    assert!(resolve("web", None, &info).is_none());
}

#[test]
fn versions_comparable_looks_at_the_versions_to_compare() {
    let good = versions(&[(Some("linux-x64"), "2.0.0"), (None, "1.0.0")]);
    assert!(versions_comparable(None, "linux-x64", &good));
    let bad = versions(&[(Some("linux-x64"), "2.0"), (None, "1.0.0")]);
    assert!(!versions_comparable(None, "linux-x64", &bad));
    assert!(versions_comparable(Some("linux-x64"), "linux-x64", &bad));
    assert!(versions_comparable(None, "web", &bad));
    let bad = versions(&[(Some("linux-x64"), "2.0.0"), (None, "latest")]);
    assert!(!versions_comparable(None, "linux-x64", &bad));
    let lone = versions(&[(Some("linux-x64"), "latest")]);
    assert!(versions_comparable(None, "linux-x64", &lone));
}

#[test]
fn get_current_names_the_platform_as_the_marketplace_does() {
    assert_eq!(get_current("linux", "x86_64"), "linux-x64");
    assert_eq!(get_current("macos", "aarch64"), "darwin-aarch64");
    assert_eq!(get_current("macos", "x86_64"), "darwin-x64");
    assert_eq!(get_current("windows", "x86_64"), "win32-x64");
    assert_eq!(get_current("windows", "arm"), "win32-arm64");
    assert_eq!(get_current("linux", "arm"), "linux-arm64");
    assert_eq!(get_current("freebsd", "riscv64"), "freebsd-riscv64");
    assert_eq!(get_current("", ""), "-");
}
