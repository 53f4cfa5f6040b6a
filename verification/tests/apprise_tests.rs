use grafana_apprise_adapter::apprise::{get_apprise_notify_url, get_apprise_url, tag_query_string, AppriseState, ApprisePayload, NotificationConfig};
use grafana_apprise_adapter::grafana::{GrafanaPayload, GrafanaState, LegacyPayload, UnifiedPayload};
use grafana_apprise_adapter::key_values::KeyValues;
use grafana_apprise_adapter::service_url::ServiceUrl;

fn unified(title: &str, message: &str, status: &str, labels: KeyValues, annotations: KeyValues) -> UnifiedPayload {
    UnifiedPayload {
        title: title.to_string(),
        message: message.to_string(),
        status: status.to_string(),
        common_labels: labels,
        common_annotations: annotations,
    }
}

fn legacy(state: GrafanaState) -> LegacyPayload {
    LegacyPayload {
        title: "Legacy Alert".to_string(),
        message: "Old format".to_string(),
        state,
        image: "http://example.com/image.png".to_string(),
        tags: KeyValues::new(),
    }
}

#[test]
fn test_get_apprise_notify_url() {
    let apprise_url = ServiceUrl::parse("http://apprise:8080").unwrap();
    assert_eq!(
        get_apprise_notify_url(&apprise_url, "foo", &[])
            .unwrap()
            .as_str(),
        "http://apprise:8080/notify/foo"
    );
}

#[test]
fn test_get_apprise_notify_url_with_tags() {
    let apprise_url = ServiceUrl::parse("http://apprise:8080").unwrap();
    assert_eq!(
        get_apprise_notify_url(&apprise_url, "foo", &["tag1".to_string(), "tag2".to_string()])
            .unwrap()
            .as_str(),
        "http://apprise:8080/notify/foo?tag=tag1,tag2"
    );
}

#[test]
fn test_get_apprise_notify_url_with_single_tag() {
    let apprise_url = ServiceUrl::parse("http://apprise:8080").unwrap();
    assert_eq!(
        get_apprise_notify_url(&apprise_url, "bar", &["mytag".to_string()])
            .unwrap()
            .as_str(),
        "http://apprise:8080/notify/bar?tag=mytag"
    );
}

#[test]
fn test_unified_payload_conversion() {
    let mut common_labels = KeyValues::new();
    common_labels.insert("severity".to_string(), "critical".to_string());

    let payload = unified("Test Alert", "Something is wrong", "firing", common_labels, KeyValues::new());
    let apprise_payload = ApprisePayload::from(payload);
    assert_eq!(apprise_payload.title, "Test Alert");
    assert!(apprise_payload.body.contains("Something is wrong"));
    assert!(apprise_payload.body.contains("Labels:"));
    assert!(apprise_payload.body.contains("- severity: critical"));
    assert!(matches!(
        apprise_payload.notification_type,
        AppriseState::Failure
    ));

    let payload_resolved = unified("Test Alert", "Everything is fine", "resolved", KeyValues::new(), KeyValues::new());
    let apprise_payload_resolved = ApprisePayload::from(payload_resolved);
    assert!(matches!(
        apprise_payload_resolved.notification_type,
        AppriseState::Success
    ));
}

#[test]
fn test_unified_payload_config_overrides() {
    let mut common_labels = KeyValues::new();
    common_labels.insert("severity".to_string(), "critical".to_string());
    let mut common_annotations = KeyValues::new();
    common_annotations.insert("description".to_string(), "CUSTOM BODY".to_string());
    common_annotations.insert("summary".to_string(), "CUSTOM TITLE".to_string());

    let payload = unified("Original Title", "Original Message", "firing", common_labels, common_annotations);

    // Test skipping labels and annotations
    let config_skip = NotificationConfig {
        append_labels: false,
        append_annotations: false,
        title_annotation: None,
        body_annotation: None,
    };
    let apprise_payload_skip = ApprisePayload::from_unified(payload.clone(), &config_skip);
    assert_eq!(apprise_payload_skip.title, "Original Title");
    assert_eq!(apprise_payload_skip.body, "Original Message");

    // Test using specific annotations
    let config_annotations = NotificationConfig {
        append_labels: false,
        append_annotations: false,
        title_annotation: Some("summary".to_string()),
        body_annotation: Some("description".to_string()),
    };
    let apprise_payload_anno = ApprisePayload::from_unified(payload, &config_annotations);
    assert_eq!(apprise_payload_anno.title, "CUSTOM TITLE");
    assert_eq!(apprise_payload_anno.body, "CUSTOM BODY");
}

#[test]
fn unified_body_lists_labels_then_annotations_exactly() {
    let mut labels = KeyValues::new();
    labels.insert("severity".to_string(), "critical".to_string());
    labels.insert("team".to_string(), "ops".to_string());
    let mut annotations = KeyValues::new();
    annotations.insert("summary".to_string(), "disk full".to_string());
    let payload = unified("T", "M", "firing", labels, annotations);
    let p = ApprisePayload::from(payload);
    assert_eq!(
        p.body,
        "M\n\nLabels:\n- severity: critical\n- team: ops\n\nAnnotations:\n- summary: disk full"
    );
}

#[test]
fn unified_empty_lists_add_no_section() {
    let payload = unified("T", "M", "firing", KeyValues::new(), KeyValues::new());
    let p = ApprisePayload::from(payload);
    assert_eq!(p.title, "T");
    assert_eq!(p.body, "M");
}

#[test]
fn unified_missing_annotation_falls_back() {
    let mut annotations = KeyValues::new();
    annotations.insert("summary".to_string(), "S".to_string());
    let payload = unified("T", "M", "firing", KeyValues::new(), annotations);
    let config = NotificationConfig {
        append_labels: true,
        append_annotations: false,
        title_annotation: Some("missing".to_string()),
        body_annotation: Some("summary".to_string()),
    };
    let p = ApprisePayload::from_unified(payload, &config);
    assert_eq!(p.title, "T");
    assert_eq!(p.body, "S");
}

#[test]
fn unified_other_status_is_info() {
    let payload = unified("T", "M", "pending", KeyValues::new(), KeyValues::new());
    assert_eq!(ApprisePayload::from(payload).notification_type, AppriseState::Info);
    let payload = unified("T", "M", "Firing", KeyValues::new(), KeyValues::new());
    assert_eq!(ApprisePayload::from(payload).notification_type, AppriseState::Info);
}

#[test]
fn legacy_states_map_to_kinds() {
    let cases = [
        (GrafanaState::OK, AppriseState::Success),
        (GrafanaState::Paused, AppriseState::Info),
        (GrafanaState::Alerting, AppriseState::Failure),
        (GrafanaState::Pending, AppriseState::Info),
        (GrafanaState::NoData, AppriseState::Warning),
    ];
    for (state, kind) in cases {
        assert_eq!(AppriseState::from(state), kind);
        let p = ApprisePayload::from(legacy(state));
        assert_eq!(p.title, "Legacy Alert");
        assert_eq!(p.body, "Old format");
        assert_eq!(p.notification_type, kind);
    }
}

#[test]
fn legacy_payload_ignores_config() {
    let config = NotificationConfig {
        append_labels: false,
        append_annotations: false,
        title_annotation: Some("summary".to_string()),
        body_annotation: Some("description".to_string()),
    };
    let a = ApprisePayload::from_grafana_payload(GrafanaPayload::Legacy(legacy(GrafanaState::Alerting)), &config);
    let b = ApprisePayload::from(GrafanaPayload::Legacy(legacy(GrafanaState::Alerting)));
    assert_eq!(a.title, b.title);
    assert_eq!(a.body, b.body);
    assert_eq!(a.notification_type, b.notification_type);
}

#[test]
fn grafana_payload_unified_uses_config() {
    let mut labels = KeyValues::new();
    labels.insert("a".to_string(), "b".to_string());
    let payload = GrafanaPayload::Unified(unified("T", "M", "resolved", labels, KeyValues::new()));
    let config = NotificationConfig {
        append_labels: false,
        append_annotations: true,
        title_annotation: None,
        body_annotation: None,
    };
    let p = ApprisePayload::from_grafana_payload(payload, &config);
    assert_eq!(p.body, "M");
    assert_eq!(p.notification_type, AppriseState::Success);
}

#[test]
fn apprise_url_from_setting_value() {
    assert!(get_apprise_url(None).is_none());
    assert!(get_apprise_url(Some("not a url")).is_none());
    let parsed = get_apprise_url(Some("http://apprise:8080")).unwrap();
    assert_eq!(parsed.as_str(), "http://apprise:8080/");
    let url = url::Url::parse(parsed.as_str()).unwrap();
    assert_eq!(url.domain(), Some("apprise"));
    assert_eq!(url.port(), Some(8080));
    assert_eq!(url.scheme(), "http");
}

#[test]
fn parse_error_carries_reason() {
    let err = ServiceUrl::parse("/relative").unwrap_err();
    assert_eq!(err.message, "relative URL without a base");
}

#[test]
fn notify_url_join_error() {
    let base = ServiceUrl::parse("mailto:someone@example.com").unwrap();
    let err = get_apprise_notify_url(&base, "foo", &[]).unwrap_err();
    assert_eq!(err.message, "relative URL with a cannot-be-a-base base");
}

#[test]
fn notify_url_joins_on_path_base() {
    let base = ServiceUrl::parse("https://example.net/apprise/").unwrap();
    let url = get_apprise_notify_url(&base, "k", &["a b".to_string(), "c".to_string()]).unwrap();
    assert_eq!(url.as_str(), "https://example.net/notify/k?tag=a%20b,c");
}

#[test]
fn tag_query_joins_with_commas() {
    assert_eq!(tag_query_string(&[]), "tag=");
    assert_eq!(tag_query_string(&["x".to_string()]), "tag=x");
    assert_eq!(tag_query_string(&["x".to_string(), "y".to_string(), "z".to_string()]), "tag=x,y,z");
}
