use invoicevault::app_core::{cache_key, import_failure_message};
use invoicevault::config::{
    log_level_check, log_level_or_default, sanitize_badge_config, theme_check, theme_or_default, BadgeConfig,
    BadgeGroupConfig,
};

fn s(v: &str) -> String {
    v.to_owned()
}

fn group(name: &str, options: &[&str]) -> BadgeGroupConfig {
    BadgeGroupConfig { name: s(name), options: options.iter().map(|o| s(o)).collect() }
}

fn flatten(c: &BadgeConfig) -> Vec<(String, Vec<String>)> {
    c.groups.iter().map(|g| (g.name.clone(), g.options.clone())).collect()
}

#[test]
fn badge_groups_are_cleaned() {
    let config = BadgeConfig {
        groups: vec![
            group(" 项目 ", &[" A ", "", "B", "A"]),
            group("   ", &["x"]),
            group("项目", &["C"]),
            group("部门", &[]),
        ],
    };
    let clean = sanitize_badge_config(config);
    assert_eq!(
        flatten(&clean),
        vec![(s("项目"), vec![s("A"), s("B")]), (s("部门"), vec![])]
    );
}

#[test]
fn sanitizing_twice_changes_nothing() {
    let config = BadgeConfig { groups: vec![group(" a", &["x ", " x", "y"]), group("b ", &[" "]), group("a", &["z"])] };
    let once = sanitize_badge_config(config);
    let flat_once = flatten(&once);
    let twice = sanitize_badge_config(once);
    assert_eq!(flatten(&twice), flat_once);
}

#[test]
fn default_badge_config_is_empty() {
    assert!(BadgeConfig::default().groups.is_empty());
}

#[test]
fn import_failures_get_user_messages() {
    assert_eq!(import_failure_message("extractor error: 文件不含有发票"), "文件不含有发票");
    assert_eq!(import_failure_message("non-invoice image"), "文件不含有发票");
    assert_eq!(
        import_failure_message("provider response did not include a JSON object"),
        "识别失败：可能是图片分辨率不清晰、内容不完整，或文件不含有可识别的发票。"
    );
    assert_eq!(import_failure_message("timeout"), "识别失败：timeout");
}

#[test]
fn cache_keys_join_the_range() {
    assert_eq!(cache_key(&Some(s("2024-01-01")), &None), "2024-01-01|");
    assert_eq!(cache_key(&None, &Some(s("b"))), "|b");
    assert_eq!(cache_key(&None, &None), "|");
}

#[test]
fn theme_and_log_level_settings() {
    assert_eq!(theme_check("dark"), Ok(()));
    assert_eq!(theme_check("blue"), Err("theme must be 'light' or 'dark'".to_owned()));
    assert_eq!(theme_or_default(None), "light");
    assert_eq!(theme_or_default(Some("dark".to_owned())), "dark");
    assert_eq!(log_level_check("warn"), Ok(()));
    assert_eq!(
        log_level_check("loud"),
        Err("无效的日志级别: 'loud'，可选值: trace, debug, info, warn, error".to_owned())
    );
    assert_eq!(log_level_or_default(None), "info");
}
