use vstd::prelude::*;

use crate::apprise::{
    get_apprise_notify_url, is_notification, notify_path, notify_url_fits, notify_url_result,
    tag_query_string, texts, ApprisePayload, NotificationConfig,
};
use crate::grafana::GrafanaPayload;
use crate::service_url::{url_join_result, ServiceUrl, UrlError};

verus! {

/// The options that one notify request may set: each overrides the setting
/// of the same name, and both tag lists select the Apprise tags.
#[derive(Debug, Clone)]
pub struct NotifyQuery {
    pub append_labels: Option<bool>,
    pub append_annotations: Option<bool>,
    pub title_annotation: Option<String>,
    pub body_annotation: Option<String>,
    pub tag: Vec<String>,
    pub tags: Vec<String>,
}

/// The settings of the service.
#[derive(Debug)]
pub struct AppState {
    pub apprise_url: ServiceUrl,
    pub append_labels: bool,
    pub append_annotations: bool,
    pub title_annotation: Option<String>,
    pub body_annotation: Option<String>,
}

/// What to send to Apprise for one alert: the URL to post to and the
/// notification to post.
#[derive(Debug)]
pub struct NotifyRequest {
    pub url: ServiceUrl,
    pub payload: ApprisePayload,
}

/// Why no notification could be sent.
#[derive(Debug, Clone)]
pub enum NotifyError {
    /// The notify URL could not be built from the Apprise URL and the key.
    InvalidUrl(UrlError),
    /// The notify URL with its tag query might pass the 4 GiB that the `url`
    /// crate can hold, counting each character of the query at its longest
    /// percent-encoding. Such a URL is far beyond the length of URI that the
    /// HTTP client sends, so no request goes to Apprise.
    UrlTooLong,
}

/// `v` where the request sets it, else the setting `default`.
pub open spec fn override_or<T>(v: Option<T>, default: T) -> T {
    match v {
        Some(x) => x,
        None => default,
    }
}

/// `v` where the request sets it, else the optional setting `default`.
pub open spec fn override_or_option<T>(v: Option<T>, default: Option<T>) -> Option<T> {
    match v {
        Some(x) => Some(x),
        None => default,
    }
}

/// The configuration of one request: each option of the request that is
/// set overrides the setting.
pub open spec fn request_config(state: AppState, query: NotifyQuery) -> NotificationConfig {
    NotificationConfig {
        append_labels: override_or(query.append_labels, state.append_labels),
        append_annotations: override_or(query.append_annotations, state.append_annotations),
        title_annotation: override_or_option(query.title_annotation, state.title_annotation),
        body_annotation: override_or_option(query.body_annotation, state.body_annotation),
    }
}

/// The tags of one request: those of `tag`, then those of `tags`.
pub open spec fn request_tags(query: NotifyQuery) -> Seq<Seq<char>> {
    texts(query.tag@ + query.tags@)
}

/// The outcome of `notify` for these inputs, as far as it lies in the URL.
pub open spec fn notify_url_outcome(state: AppState, key: Seq<char>, query: NotifyQuery) -> Result<
    Seq<char>,
    Option<Seq<char>>,
> {
    if notify_url_fits(state.apprise_url@, key, request_tags(query)) {
        match notify_url_result(state.apprise_url@, key, request_tags(query)) {
            Ok(u) => Ok(u),
            Err(m) => Err(Some(m)),
        }
    } else {
        Err(None)
    }
}

/// The URL part of a result of `notify`: the URL, or the text of the URL
/// error, or `None` for a URL that would be too long.
pub open spec fn notify_result_url_view(r: Result<NotifyRequest, NotifyError>) -> Result<
    Seq<char>,
    Option<Seq<char>>,
> {
    match r {
        Ok(req) => Ok(req.url@),
        Err(NotifyError::InvalidUrl(e)) => Err(Some(e.message@)),
        Err(NotifyError::UrlTooLong) => Err(None),
    }
}

fn option_bool_or(v: Option<bool>, default: bool) -> (res: bool)
    ensures
        res == override_or(v, default),
{
    match v {
        Some(b) => b,
        None => default,
    }
}

fn option_string_or(v: &Option<String>, default: &Option<String>) -> (res: Option<String>)
    ensures
        res == override_or_option(*v, *default),
{
    match v {
        Some(s) => Some(s.clone()),
        None => match default {
            Some(s) => Some(s.clone()),
            None => None,
        },
    }
}

/// The configuration of one request.
pub fn resolve_config(state: &AppState, query: &NotifyQuery) -> (c: NotificationConfig)
    ensures
        c == request_config(*state, *query),
{
    NotificationConfig {
        append_labels: option_bool_or(query.append_labels, state.append_labels),
        append_annotations: option_bool_or(query.append_annotations, state.append_annotations),
        title_annotation: option_string_or(&query.title_annotation, &state.title_annotation),
        body_annotation: option_string_or(&query.body_annotation, &state.body_annotation),
    }
}

proof fn lemma_texts_push(s: Seq<String>, x: String)
    ensures
        texts(s.push(x)) == texts(s).push(x@),
{
    assert(texts(s.push(x)) =~= texts(s).push(x@));
}

/// The tags of one request, `tag` first.
fn collect_tags(query: &NotifyQuery) -> (res: Vec<String>)
    ensures
        texts(res@) == request_tags(*query),
{
    let mut res: Vec<String> = Vec::new();
    let n = query.tag.len();
    let mut i: usize = 0;
    while i < n
        invariant
            n == query.tag@.len(),
            i <= n,
            texts(res@) == texts(query.tag@.take(i as int)),
        decreases n - i,
    {
        let ghost before = res@;
        res.push(query.tag[i].clone());
        proof {
            assert(res@ == before.push(query.tag@[i as int]));
            lemma_texts_push(before, query.tag@[i as int]);
            lemma_texts_push(query.tag@.take(i as int), query.tag@[i as int]);
            assert(query.tag@.take(i + 1) =~= query.tag@.take(i as int).push(query.tag@[i as int]));
        }
        i = i + 1;
    }
    let m = query.tags.len();
    let mut j: usize = 0;
    while j < m
        invariant
            n == query.tag@.len(),
            m == query.tags@.len(),
            j <= m,
            texts(res@) == texts(query.tag@ + query.tags@.take(j as int)),
        decreases m - j,
    {
        let ghost before = res@;
        res.push(query.tags[j].clone());
        proof {
            assert(res@ == before.push(query.tags@[j as int]));
            lemma_texts_push(before, query.tags@[j as int]);
            lemma_texts_push(query.tag@ + query.tags@.take(j as int), query.tags@[j as int]);
            assert(query.tag@ + query.tags@.take(j + 1) =~= (query.tag@ + query.tags@.take(j as int)).push(query.tags@[j as int]));
        }
        j = j + 1;
    }
    assert(query.tags@.take(m as int) =~= query.tags@);
    assert(query.tag@.take(n as int) =~= query.tag@);
    res
}

/// Whether the tag query fits on the joined notify URL, computed.
fn url_fits(host: &ServiceUrl, key: &str, tags: &[String]) -> (b: bool)
    ensures
        b == notify_url_fits(host@, key@, texts(tags@)),
{
    if tags.len() == 0 {
        return true;
    }
    let mut path = String::from_str("/notify/");
    path.append(key);
    match host.join(path.as_str()) {
        Ok(joined) => {
            let query = tag_query_string(tags);
            let u = joined.as_str().unicode_len();
            let q = query.as_str().unicode_len();
            if u > 0xFFFF_FFFF || q > 0x1555_5555 {
                false
            } else {
                let total: u64 = (u as u64) + 12 * (q as u64) + 1;
                total <= 0xFFFF_FFFF
            }
        },
        Err(_) => true,
    }
}

/// What to send to Apprise for the alert `payload` posted for the Apprise
/// configuration `key`: the notification made under the settings, each
/// overridden by the request where it sets it, and the notify URL that
/// selects the tags of `tag`, then of `tags`.
pub fn notify(payload: GrafanaPayload, key: &str, state: &AppState, query: &NotifyQuery) -> (res:
    Result<NotifyRequest, NotifyError>)
    ensures
        notify_result_url_view(res) == notify_url_outcome(*state, key@, *query),
        res matches Ok(req) ==> is_notification(req.payload, payload, request_config(*state, *query)),
{
    let config = resolve_config(state, query);
    let payload = ApprisePayload::from_grafana_payload(payload, &config);
    let tags = collect_tags(query);
    if !url_fits(&state.apprise_url, key, tags.as_slice()) {
        return Err(NotifyError::UrlTooLong);
    }
    match get_apprise_notify_url(&state.apprise_url, key, tags.as_slice()) {
        Ok(url) => Ok(NotifyRequest { url, payload }),
        Err(e) => Err(NotifyError::InvalidUrl(e)),
    }
}

/// The HTTP status that answers a notify request: the status of Apprise's
/// reply where the post reached Apprise, else 502 (bad gateway).
pub fn reply_status(apprise_status: Option<u16>) -> (status: u16)
    ensures
        status == match apprise_status {
            Some(s) => s,
            None => 502u16,
        },
{
    match apprise_status {
        Some(s) => s,
        None => 502,
    }
}

impl NotifyError {
    /// The HTTP status that answers a request that failed so: 400 (bad
    /// request) where the notify URL could not be built, 502 (bad gateway)
    /// where it is too long to be sent to Apprise.
    pub fn status(&self) -> (status: u16)
        ensures
            status == match self {
                NotifyError::InvalidUrl(_) => 400u16,
                NotifyError::UrlTooLong => 502u16,
            },
    {
        match self {
            NotifyError::InvalidUrl(_) => 400,
            NotifyError::UrlTooLong => 502,
        }
    }
}

/// A boolean setting of the service: on where it is unset, else on exactly
/// where its value is `true`.
pub fn flag_setting(value: Option<&str>) -> (on: bool)
    ensures
        on == match value {
            Some(v) => v@ == "true"@,
            None => true,
        },
{
    match value {
        Some(v) => String::from_str(v) == String::from_str("true"),
        None => true,
    }
}

/// The configuration of the service itself.
pub open spec fn settings_config(state: AppState) -> NotificationConfig {
    NotificationConfig {
        append_labels: state.append_labels,
        append_annotations: state.append_annotations,
        title_annotation: state.title_annotation,
        body_annotation: state.body_annotation,
    }
}

/// Each option that a request sets decides, and each that it leaves unset
/// falls back to the setting of the same name; a request that sets none gets
/// the settings.
pub proof fn lemma_request_overrides_settings(state: AppState, query: NotifyQuery)
    ensures
        query.append_labels matches Some(b) ==> request_config(state, query).append_labels == b,
        query.append_labels is None ==> request_config(state, query).append_labels
            == state.append_labels,
        query.append_annotations matches Some(b) ==> request_config(state, query).append_annotations
            == b,
        query.append_annotations is None ==> request_config(state, query).append_annotations
            == state.append_annotations,
        query.title_annotation is Some ==> request_config(state, query).title_annotation
            == query.title_annotation,
        query.title_annotation is None ==> request_config(state, query).title_annotation
            == state.title_annotation,
        query.body_annotation is Some ==> request_config(state, query).body_annotation
            == query.body_annotation,
        query.body_annotation is None ==> request_config(state, query).body_annotation
            == state.body_annotation,
        ({
            &&& query.append_labels is None
            &&& query.append_annotations is None
            &&& query.title_annotation is None
            &&& query.body_annotation is None
        }) ==> request_config(state, query) == settings_config(state),
{
}

/// The tags of a request are those of `tag` followed by those of `tags`, so a
/// request with neither gets a notify URL without a query.
pub proof fn lemma_request_tags(state: AppState, key: Seq<char>, query: NotifyQuery)
    ensures
        request_tags(query).len() == query.tag@.len() + query.tags@.len(),
        forall|i: int| 0 <= i < query.tag@.len() ==> #[trigger] request_tags(query)[i] == query.tag@[i]@,
        forall|i: int|
            0 <= i < query.tags@.len() ==> #[trigger] request_tags(query)[query.tag@.len() + i]
                == query.tags@[i]@,
        query.tag@.len() == 0 && query.tags@.len() == 0 ==> notify_url_outcome(state, key, query)
            == match url_join_result(state.apprise_url@, notify_path(key)) {
            Ok(u) => Ok::<Seq<char>, Option<Seq<char>>>(u),
            Err(m) => Err(Some(m)),
        },
{
    if query.tag@.len() == 0 && query.tags@.len() == 0 {
        assert(request_tags(query) =~= Seq::<Seq<char>>::empty());
    }
}

/// Where the notify URL for the request's tags builds and its tag query fits,
/// `notify` sends to exactly that URL; where it builds but does not fit,
/// `notify` reports a URL too long to send.
pub proof fn lemma_notify_url_is_built_url(state: AppState, key: Seq<char>, query: NotifyQuery)
    ensures
        notify_url_fits(state.apprise_url@, key, request_tags(query)) ==> match notify_url_result(
            state.apprise_url@,
            key,
            request_tags(query),
        ) {
            Ok(u) => notify_url_outcome(state, key, query) == Ok::<Seq<char>, Option<Seq<char>>>(u),
            Err(m) => notify_url_outcome(state, key, query) == Err::<Seq<char>, Option<Seq<char>>>(
                Some(m),
            ),
        },
        !notify_url_fits(state.apprise_url@, key, request_tags(query)) ==> notify_url_outcome(
            state,
            key,
            query,
        ) == Err::<Seq<char>, Option<Seq<char>>>(None),
{
}

} // verus!
