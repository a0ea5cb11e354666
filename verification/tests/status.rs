use dns_status::{check_for_gravity, status, StatusValue};

#[test]
fn test_status_enabled() {
    let lines = vec!["addn-hosts=/etc/pihole/gravity.list".to_string()];
    let result = status(Some(&lines));
    assert_eq!(result, StatusValue::Enabled);
    assert_eq!(result.as_str(), "enabled");
}

#[test]
fn test_status_disabled() {
    let lines = vec!["#addn-hosts=/etc/pihole/gravity.list".to_string()];
    let result = status(Some(&lines));
    assert_eq!(result, StatusValue::Disabled);
    assert_eq!(result.as_str(), "disabled");
}

#[test]
fn test_status_unknown() {
    let lines = vec!["random data...".to_string()];
    let result = status(Some(&lines));
    assert_eq!(result, StatusValue::Unknown);
    assert_eq!(result.as_str(), "unknown");
}

#[test]
fn unavailable_resource_is_unknown() {
    let result = status(None);
    assert_eq!(result, StatusValue::Unknown);
    assert_eq!(result.as_str(), "unknown");
}

#[test]
fn empty_resource_is_unknown() {
    let lines: Vec<String> = Vec::new();
    assert_eq!(status(Some(&lines)), StatusValue::Unknown);
}

#[test]
fn first_match_wins_enabled_first() {
    let lines = vec![
        "foo".to_string(),
        "addn-hosts=/etc/pihole/gravity.list".to_string(),
        "#addn-hosts=/etc/pihole/gravity.list".to_string(),
    ];
    assert_eq!(status(Some(&lines)), StatusValue::Enabled);
}

#[test]
fn first_match_wins_disabled_first() {
    let lines = vec![
        "foo".to_string(),
        "#addn-hosts=/etc/pihole/gravity.list".to_string(),
        "addn-hosts=/etc/pihole/gravity.list".to_string(),
    ];
    assert_eq!(status(Some(&lines)), StatusValue::Disabled);
}

#[test]
fn no_directive_in_many_lines_is_unknown() {
    let lines = vec![
        "domain-needed".to_string(),
        "bogus-priv".to_string(),
        "server=127.0.0.1#5353".to_string(),
        "addn-hosts=/etc/pihole/other.list".to_string(),
        " addn-hosts=/etc/pihole/gravity.list".to_string(),
    ];
    assert_eq!(status(Some(&lines)), StatusValue::Unknown);
}

#[test]
fn check_is_idempotent() {
    let lines = vec![
        "foo".to_string(),
        "addn-hosts=/etc/pihole/gravity.list".to_string(),
    ];
    let first = check_for_gravity(&lines);
    let second = check_for_gravity(&lines);
    assert_eq!(first, second);
}
