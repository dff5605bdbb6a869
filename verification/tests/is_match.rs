use config_resolve::record::ParsedConfig;
use config_resolve::resolve::{AppProperties, ResolveError, ResolvedConfig};

fn test_filter_is_match(record: ParsedConfig, active_os: &str, app: &AppProperties) -> bool {
    let config = ResolvedConfig::load(record, "config/default.yml", active_os, None).unwrap();
    config.is_match(app)
}

#[test]
fn is_match_no_filters() {
    assert!(!test_filter_is_match(
        ParsedConfig {
            ..Default::default()
        },
        "linux",
        &AppProperties {
            title: Some("Google"),
            class: Some("Chrome"),
            exec_name: Some("chrome.exe"),
        },
    ));
}

#[test]
fn is_match_filter_title() {
    let record = || ParsedConfig {
        filter_title: Some("Google".to_string()),
        ..Default::default()
    };

    assert!(test_filter_is_match(
        record(),
        "linux",
        &AppProperties {
            title: Some("Google Mail"),
            class: Some("Chrome"),
            exec_name: Some("chrome.exe"),
        },
    ));

    assert!(!test_filter_is_match(
        record(),
        "linux",
        &AppProperties {
            title: Some("Yahoo"),
            class: Some("Chrome"),
            exec_name: Some("chrome.exe"),
        },
    ));

    assert!(!test_filter_is_match(
        record(),
        "linux",
        &AppProperties {
            title: None,
            class: Some("Chrome"),
            exec_name: Some("chrome.exe"),
        },
    ));
}

#[test]
fn is_match_filter_class() {
    let record = || ParsedConfig {
        filter_class: Some("Chrome".to_string()),
        ..Default::default()
    };

    assert!(test_filter_is_match(
        record(),
        "linux",
        &AppProperties {
            title: Some("Google Mail"),
            class: Some("Chrome"),
            exec_name: Some("chrome.exe"),
        },
    ));

    assert!(!test_filter_is_match(
        record(),
        "linux",
        &AppProperties {
            title: Some("Yahoo"),
            class: Some("Another"),
            exec_name: Some("chrome.exe"),
        },
    ));

    assert!(!test_filter_is_match(
        record(),
        "linux",
        &AppProperties {
            title: Some("google"),
            class: None,
            exec_name: Some("chrome.exe"),
        },
    ));
}

#[test]
fn is_match_filter_exec() {
    let record = || ParsedConfig {
        filter_exec: Some("chrome.exe".to_string()),
        ..Default::default()
    };

    assert!(test_filter_is_match(
        record(),
        "linux",
        &AppProperties {
            title: Some("Google Mail"),
            class: Some("Chrome"),
            exec_name: Some("chrome.exe"),
        },
    ));

    assert!(!test_filter_is_match(
        record(),
        "linux",
        &AppProperties {
            title: Some("Yahoo"),
            class: Some("Another"),
            exec_name: Some("zoom.exe"),
        },
    ));

    assert!(!test_filter_is_match(
        record(),
        "linux",
        &AppProperties {
            title: Some("google"),
            class: Some("Chrome"),
            exec_name: None,
        },
    ));
}

#[test]
fn is_match_filter_os() {
    let app = || AppProperties {
        title: Some("Google Mail"),
        class: Some("Chrome"),
        exec_name: Some("chrome.exe"),
    };

    assert!(test_filter_is_match(
        ParsedConfig {
            filter_os: Some("linux".to_string()),
            ..Default::default()
        },
        "linux",
        &app(),
    ));

    assert!(!test_filter_is_match(
        ParsedConfig {
            filter_os: Some("macos".to_string()),
            ..Default::default()
        },
        "linux",
        &app(),
    ));

    assert!(!test_filter_is_match(
        ParsedConfig {
            filter_os: Some("invalid".to_string()),
            ..Default::default()
        },
        "invalid",
        &app(),
    ));
}

#[test]
fn is_match_multiple_filters() {
    let record = || ParsedConfig {
        filter_exec: Some("chrome.exe".to_string()),
        filter_title: Some("Youtube".to_string()),
        ..Default::default()
    };

    assert!(test_filter_is_match(
        record(),
        "linux",
        &AppProperties {
            title: Some("Youtube - Broadcast Yourself"),
            class: Some("Chrome"),
            exec_name: Some("chrome.exe"),
        },
    ));

    assert!(!test_filter_is_match(
        record(),
        "linux",
        &AppProperties {
            title: Some("Gmail"),
            class: Some("Chrome"),
            exec_name: Some("chrome.exe"),
        },
    ));
}

#[test]
fn load_fails_on_rootless_path() {
    let err = ResolvedConfig::load(
        ParsedConfig {
            ..Default::default()
        },
        "/",
        "linux",
        None,
    )
    .unwrap_err();
    assert!(matches!(err, ResolveError::ParentResolveFailed));
}

#[test]
fn load_fails_on_invalid_filter_regex() {
    let err = ResolvedConfig::load(
        ParsedConfig {
            filter_title: Some("foo(bar".to_string()),
            ..Default::default()
        },
        "config/default.yml",
        "linux",
        None,
    )
    .unwrap_err();
    assert!(matches!(err, ResolveError::PatternCompileFailed(_)));
}

#[test]
fn label_defaults_to_sentinel() {
    let config = ResolvedConfig::load(
        ParsedConfig {
            ..Default::default()
        },
        "config/default.yml",
        "linux",
        None,
    )
    .unwrap();
    assert_eq!(config.label(), "none");

    let labeled = ResolvedConfig::load(
        ParsedConfig {
            label: Some("custom".to_string()),
            ..Default::default()
        },
        "config/default.yml",
        "linux",
        None,
    )
    .unwrap();
    assert_eq!(labeled.label(), "custom");
}

#[test]
fn label_inherited_from_parent() {
    let parent = ResolvedConfig::load(
        ParsedConfig {
            label: Some("parent".to_string()),
            ..Default::default()
        },
        "config/parent.yml",
        "linux",
        None,
    )
    .unwrap();
    let child = ResolvedConfig::load(
        ParsedConfig {
            ..Default::default()
        },
        "config/default.yml",
        "linux",
        Some(&parent),
    )
    .unwrap();
    assert_eq!(child.label(), "parent");
}
