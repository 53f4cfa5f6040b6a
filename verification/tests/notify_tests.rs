use grafana_apprise_adapter::apprise::{AppriseState, get_apprise_url};
use grafana_apprise_adapter::grafana::{GrafanaPayload, UnifiedPayload};
use grafana_apprise_adapter::key_values::KeyValues;
use grafana_apprise_adapter::notify::{notify, reply_status, AppState, NotifyError, NotifyQuery};

fn state(url: &str) -> AppState {
    AppState {
        apprise_url: get_apprise_url(Some(url)).unwrap(),
        append_labels: true,
        append_annotations: true,
        title_annotation: None,
        body_annotation: None,
    }
}

fn empty_query() -> NotifyQuery {
    NotifyQuery {
        append_labels: None,
        append_annotations: None,
        title_annotation: None,
        body_annotation: None,
        tag: vec![],
        tags: vec![],
    }
}

fn alert() -> GrafanaPayload {
    let mut labels = KeyValues::new();
    labels.insert("severity".to_string(), "critical".to_string());
    let mut annotations = KeyValues::new();
    annotations.insert("summary".to_string(), "S".to_string());
    GrafanaPayload::Unified(UnifiedPayload {
        title: "T".to_string(),
        message: "M".to_string(),
        status: "firing".to_string(),
        common_labels: labels,
        common_annotations: annotations,
    })
}

#[test]
fn notify_uses_settings_without_options() {
    let req = notify(alert(), "foo", &state("http://apprise:8080"), &empty_query()).unwrap();
    assert_eq!(req.url.as_str(), "http://apprise:8080/notify/foo");
    assert_eq!(req.payload.title, "T");
    assert_eq!(req.payload.body, "M\n\nLabels:\n- severity: critical\n\nAnnotations:\n- summary: S");
    assert_eq!(req.payload.notification_type, AppriseState::Failure);
}

#[test]
fn notify_options_override_settings() {
    let mut query = empty_query();
    query.append_labels = Some(false);
    query.append_annotations = Some(false);
    query.title_annotation = Some("summary".to_string());
    let req = notify(alert(), "foo", &state("http://apprise:8080"), &query).unwrap();
    assert_eq!(req.payload.title, "S");
    assert_eq!(req.payload.body, "M");

    let mut settings = state("http://apprise:8080");
    settings.append_labels = false;
    settings.body_annotation = Some("summary".to_string());
    let mut query = empty_query();
    query.append_annotations = Some(false);
    let req = notify(alert(), "foo", &settings, &query).unwrap();
    assert_eq!(req.payload.title, "T");
    assert_eq!(req.payload.body, "S");
}

#[test]
fn notify_tags_come_from_tag_then_tags() {
    let mut query = empty_query();
    query.tag = vec!["telegram".to_string()];
    query.tags = vec!["matrix".to_string(), "mail".to_string()];
    let req = notify(alert(), "bar", &state("http://apprise:8080"), &query).unwrap();
    assert_eq!(req.url.as_str(), "http://apprise:8080/notify/bar?tag=telegram,matrix,mail");
}

#[test]
fn notify_reports_url_error() {
    let res = notify(alert(), "foo", &state("mailto:someone@example.com"), &empty_query());
    match res {
        Err(NotifyError::InvalidUrl(e)) => {
            assert_eq!(e.message, "relative URL with a cannot-be-a-base base");
            assert_eq!(NotifyError::InvalidUrl(e).status(), 400);
        },
        _ => panic!("expected a URL error"),
    }
    assert_eq!(NotifyError::UrlTooLong.status(), 502);
}

#[test]
fn reply_status_passes_apprise_status() {
    assert_eq!(reply_status(Some(200)), 200);
    assert_eq!(reply_status(Some(424)), 424);
    assert_eq!(reply_status(None), 502);
}
