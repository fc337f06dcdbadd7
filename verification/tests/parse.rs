use offline_vsix::error::QueryError;
use offline_vsix::extensions::extension::get_target_platform;
use offline_vsix::extensions::parse::{
    architectures, latest_per_platform, latest_version, parse, published_versions,
    PublishedVersion,
};

const LOG3: &str = r#"
{
    "results": [
        {
            "extensions": [
                {
                    "versions": [
                        {
                            "version": "1.11.3"
                        },
                        {
                            "version": "1.11.0",
                            "targetPlatform": "linux-x64"
                        }
                    ]
                }
            ]
        }
    ]
}
"#;
const LOG2: &str = r#"
{
    "results": [
        {
            "extensions": [
                {
                    "versions": [
                        {"version": "0.0.10"}
                    ]
                }
            ]
        }
    ]
}
"#;

const LOG1: &str = r#"
{
    "results": [
        {
            "extensions": [
                {
                    "versions": [
                        {"version": "0.4.2304", "targetPlatform": "win32-x64"},
                        {"version": "0.4.2304", "targetPlatform": "linux-arm64"},
                        {"version": "0.4.2304", "targetPlatform": "darwin-x64"},
                        {"version": "0.4.2304", "targetPlatform": "darwin-arm64"},
                        {"version": "0.4.2304", "targetPlatform": "alpine-x64"},
                        {"version": "0.4.2304", "targetPlatform": "win32-arm64"},
                        {"version": "0.4.2304", "targetPlatform": "linux-x64"},
                        {"version": "0.4.2304", "targetPlatform": "linux-armhf"},
                        {"version": "0.4.1731", "targetPlatform": "win32-ia32"},
                        {"version": "0.4.1067"}
                    ]
                }
            ]
        }
    ]
}
"#;

#[test]
fn test_parse_parameterized_log1() {
    let response_json: serde_json::Value = serde_json::from_str(LOG1).unwrap();
    let extension_info = parse(&response_json).unwrap();
    let arch_versions = extension_info.arch_versions;
    let expected = vec![
        (Some("win32-x64".to_string()), "0.4.2304".to_string()),
        (Some("linux-arm64".to_string()), "0.4.2304".to_string()),
        (Some("darwin-x64".to_string()), "0.4.2304".to_string()),
        (Some("darwin-arm64".to_string()), "0.4.2304".to_string()),
        (Some("alpine-x64".to_string()), "0.4.2304".to_string()),
        (Some("win32-arm64".to_string()), "0.4.2304".to_string()),
        (Some("linux-x64".to_string()), "0.4.2304".to_string()),
        (Some("linux-armhf".to_string()), "0.4.2304".to_string()),
        (Some("win32-ia32".to_string()), "0.4.1731".to_string()),
        (None, "0.4.1067".to_string()),
    ];
    for (platform, version) in expected {
        assert_eq!(arch_versions.get(&platform), Some(&version));
    }
}

#[test]
fn test_parse_parameterized_log2() {
    let response_json: serde_json::Value = serde_json::from_str(LOG2).unwrap();
    let extension_info = parse(&response_json).unwrap();
    let arch_versions = extension_info.arch_versions;
    let expected = vec![(None, "0.0.10".to_string())];
    for (platform, version) in expected {
        assert_eq!(arch_versions.get(&platform), Some(&version));
    }
}

#[test]
fn test_parse_parameterized_log3() {
    let response_json: serde_json::Value = serde_json::from_str(LOG3).unwrap();
    let extension_info = parse(&response_json).unwrap();
    let arch_versions = extension_info.arch_versions;
    let expected = vec![
        (None, "1.11.3".to_string()),
        (Some("linux-x64".to_string()), "1.11.0".to_string()),
    ];
    for (platform, version) in expected {
        assert_eq!(arch_versions.get(&platform), Some(&version));
    }
}

#[test]
fn parse_lists_nothing_but_what_is_published() {
    let response_json: serde_json::Value = serde_json::from_str(LOG3).unwrap();
    let arch_versions = parse(&response_json).unwrap().arch_versions;
    assert_eq!(arch_versions.len(), 2);
    assert!(!arch_versions.contains_key(&Some("win32-x64".to_string())));
    assert_eq!(arch_versions.get(&Some("win32-x64".to_string())), None);
}

#[test]
fn parse_keeps_the_first_version_of_a_platform() {
    let text = r#"{"results":[{"extensions":[{"versions":[
        {"version":"3.0.0","targetPlatform":"linux-x64"},
        {"version":"2.9.0"},
        {"version":"2.0.0","targetPlatform":"linux-x64"},
        {"version":"1.0.0"}
    ]}]}]}"#;
    let response_json: serde_json::Value = serde_json::from_str(text).unwrap();
    let arch_versions = parse(&response_json).unwrap().arch_versions;
    assert_eq!(
        arch_versions.get(&Some("linux-x64".to_string())),
        Some(&"3.0.0".to_string())
    );
    assert_eq!(arch_versions.get(&None), Some(&"2.9.0".to_string()));
    assert_eq!(arch_versions.len(), 2);
}

#[test]
fn parse_skips_an_entry_without_a_version_string() {
    let text = r#"{"results":[{"extensions":[{"versions":[
        {"targetPlatform":"linux-x64"},
        {"version":7,"targetPlatform":"web"},
        "1.0.0",
        {"version":"1.2.3","targetPlatform":"linux-x64"}
    ]}]}]}"#;
    let response_json: serde_json::Value = serde_json::from_str(text).unwrap();
    let published = published_versions(&response_json).unwrap();
    assert_eq!(published.len(), 1);
    assert_eq!(published[0].version, "1.2.3");
    assert_eq!(published[0].target_platform, Some("linux-x64".to_string()));
}

#[test]
fn parse_takes_a_platform_that_is_no_string_for_none() {
    let text = r#"{"results":[{"extensions":[{"versions":[
        {"version":"1.2.3","targetPlatform":null},
        {"version":"1.2.2","targetPlatform":12}
    ]}]}]}"#;
    let response_json: serde_json::Value = serde_json::from_str(text).unwrap();
    let published = published_versions(&response_json).unwrap();
    assert_eq!(published.len(), 2);
    assert_eq!(published[0].target_platform, None);
    assert_eq!(published[1].target_platform, None);
    let arch_versions = parse(&response_json).unwrap().arch_versions;
    assert_eq!(arch_versions.get(&None), Some(&"1.2.3".to_string()));
}

#[test]
fn parse_reads_the_first_result_and_its_first_extension_only() {
    let text = r#"{"results":[
        {"extensions":[
            {"versions":[{"version":"1.0.0"}]},
            {"versions":[{"version":"9.0.0","targetPlatform":"web"}]}
        ]},
        {"extensions":[{"versions":[{"version":"8.0.0","targetPlatform":"linux-x64"}]}]}
    ]}"#;
    let response_json: serde_json::Value = serde_json::from_str(text).unwrap();
    let arch_versions = parse(&response_json).unwrap().arch_versions;
    assert_eq!(arch_versions.len(), 1);
    assert_eq!(arch_versions.get(&None), Some(&"1.0.0".to_string()));
}

#[test]
fn parse_accepts_an_empty_list_of_versions() {
    let text = r#"{"results":[{"extensions":[{"versions":[]}]}]}"#;
    let response_json: serde_json::Value = serde_json::from_str(text).unwrap();
    let arch_versions = parse(&response_json).unwrap().arch_versions;
    assert!(arch_versions.is_empty());
}

fn malformed(text: &str) -> bool {
    let response_json: serde_json::Value = serde_json::from_str(text).unwrap();
    matches!(parse(&response_json), Err(QueryError::Malformed))
        && published_versions(&response_json).is_none()
}

#[test]
fn parse_rejects_an_answer_without_the_list() {
    assert!(malformed(r#"{}"#));
    assert!(malformed(r#"[]"#));
    assert!(malformed(r#"null"#));
    assert!(malformed(r#"{"results":[]}"#));
    assert!(malformed(r#"{"results":{}}"#));
    assert!(malformed(r#"{"results":[{}]}"#));
    assert!(malformed(r#"{"results":[{"extensions":[]}]}"#));
    assert!(malformed(r#"{"results":[{"extensions":[{}]}]}"#));
    assert!(malformed(r#"{"results":[{"extensions":[{"versions":{}}]}]}"#));
    assert!(malformed(r#"{"results":[{"extensions":[{"versions":"1.0.0"}]}]}"#));
    assert!(malformed(r#"{"results":[{"extensions":[[{"versions":[]}]]}]}"#));
}

#[test]
fn latest_per_platform_keeps_first_entries() {
    let published = vec![
        PublishedVersion {
            version: "2.0.0".to_string(),
            target_platform: Some("linux-x64".to_string()),
        },
        PublishedVersion {
            version: "1.5.0".to_string(),
            target_platform: None,
        },
        PublishedVersion {
            version: "1.0.0".to_string(),
            target_platform: Some("linux-x64".to_string()),
        },
    ];
    let info = latest_per_platform(&published);
    assert_eq!(info.arch_versions.len(), 2);
    assert_eq!(
        info.arch_versions.get(&Some("linux-x64".to_string())),
        Some(&"2.0.0".to_string())
    );
    assert_eq!(info.arch_versions.get(&None), Some(&"1.5.0".to_string()));
    assert!(latest_per_platform(&Vec::new()).arch_versions.is_empty());
}

#[test]
fn latest_version_is_the_first_that_is_listed() {
    let response_json: serde_json::Value = serde_json::from_str(LOG1).unwrap();
    assert_eq!(latest_version(&response_json), Some("0.4.2304".to_string()));
    let response_json: serde_json::Value = serde_json::from_str(LOG3).unwrap();
    assert_eq!(latest_version(&response_json), Some("1.11.3".to_string()));
    for text in [
        r#"{}"#,
        r#"{"results":[{"extensions":[{"versions":[]}]}]}"#,
        r#"{"results":[{"extensions":[{"versions":[{"targetPlatform":"web"},{"version":"1.0.0"}]}]}]}"#,
        r#"{"results":[{"extensions":[{"versions":[{"version":1}]}]}]}"#,
        r#"{"results":[{"extensions":[{"versions":{"version":"1.0.0"}}]}]}"#,
    ] {
        let response_json: serde_json::Value = serde_json::from_str(text).unwrap();
        assert_eq!(latest_version(&response_json), None, "{text}");
    }
}

#[test]
fn architectures_lists_the_platforms_in_order() {
    let response_json: serde_json::Value = serde_json::from_str(LOG1).unwrap();
    assert_eq!(
        architectures(&response_json),
        Some(
            [
                "win32-x64",
                "linux-arm64",
                "darwin-x64",
                "darwin-arm64",
                "alpine-x64",
                "win32-arm64",
                "linux-x64",
                "linux-armhf",
                "win32-ia32"
            ]
            .iter()
            .map(|name| name.to_string())
            .collect()
        )
    );
    let response_json: serde_json::Value = serde_json::from_str(LOG2).unwrap();
    assert_eq!(architectures(&response_json), Some(Vec::new()));
    let text = r#"{"results":[{"extensions":[{"versions":[
        {"targetPlatform":"web"},
        {"version":"1.0.0","targetPlatform":"web"},
        {"version":"1.0.0","targetPlatform":7},
        "web"
    ]}]}]}"#;
    let response_json: serde_json::Value = serde_json::from_str(text).unwrap();
    assert_eq!(
        architectures(&response_json),
        Some(vec!["web".to_string(), "web".to_string()])
    );
    let response_json: serde_json::Value = serde_json::from_str("{}").unwrap();
    assert_eq!(architectures(&response_json), None);
}

#[test]
fn architectures_feed_the_choice_of_a_target() {
    let response_json: serde_json::Value = serde_json::from_str(LOG1).unwrap();
    let supported = architectures(&response_json).unwrap();
    assert_eq!(
        get_target_platform(None, "linux-x64", &supported),
        Some("linux-x64".to_string())
    );
    assert_eq!(
        get_target_platform(Some("win32-ia32"), "linux-x64", &supported),
        Some("win32-ia32".to_string())
    );
    assert_eq!(get_target_platform(Some("web"), "linux-x64", &supported), None);
    assert_eq!(get_target_platform(None, "x86_64", &supported), None);
}
