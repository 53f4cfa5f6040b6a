use vstd::prelude::*;

use crate::grafana::{GrafanaPayload, GrafanaState, LegacyPayload, UnifiedPayload};
use crate::key_values::{lookup, Entries, KeyValues};
use crate::service_url::{
    query_fits, service_url_result_view, url_join_result, url_parse_result, url_with_query_result,
    ServiceUrl, UrlError,
};

verus! {

/// The kind of an Apprise notification.
#[derive(Debug, Clone, Copy, PartialEq, Eq, Structural)]
pub enum AppriseState {
    Info,
    Success,
    Warning,
    Failure,
}

/// A notification as the Apprise API takes it.
#[derive(Debug)]
pub struct ApprisePayload {
    pub title: String,
    pub body: String,
    pub notification_type: AppriseState,
}

/// How an alert of unified alerting becomes a notification.
#[derive(Debug, Clone)]
pub struct NotificationConfig {
    pub append_labels: bool,
    pub append_annotations: bool,
    pub title_annotation: Option<String>,
    pub body_annotation: Option<String>,
}

/// The kind of notification that a legacy alert state gives.
pub open spec fn state_of_grafana(s: GrafanaState) -> AppriseState {
    match s {
        GrafanaState::OK => AppriseState::Success,
        GrafanaState::Paused => AppriseState::Info,
        GrafanaState::Alerting => AppriseState::Failure,
        GrafanaState::Pending => AppriseState::Info,
        GrafanaState::NoData => AppriseState::Warning,
    }
}

/// The kind of notification that a unified alert status gives.
pub open spec fn state_of_status(status: Seq<char>) -> AppriseState {
    if status == "firing"@ {
        AppriseState::Failure
    } else if status == "resolved"@ {
        AppriseState::Success
    } else {
        AppriseState::Info
    }
}

/// The value of the annotation named by `key` where it is set and present,
/// else `fallback`.
pub open spec fn annotation_or(
    key: Option<String>,
    annotations: Entries,
    fallback: Seq<char>,
) -> Seq<char> {
    match key {
        Some(k) => match lookup(annotations, k@) {
            Some(v) => v,
            None => fallback,
        },
        None => fallback,
    }
}

/// One listed entry: a new line, a dash, the key, a colon and the value.
pub open spec fn entry_line(e: (Seq<char>, Seq<char>)) -> Seq<char> {
    "\n- "@ + e.0 + ": "@ + e.1
}

/// The lines of all entries, in order.
pub open spec fn entry_lines(es: Entries) -> Seq<char>
    decreases es.len(),
{
    if es.len() == 0 {
        Seq::empty()
    } else {
        entry_lines(es.drop_last()) + entry_line(es.last())
    }
}

/// A heading followed by the lines of the entries, where the section is
/// enabled and there is an entry to list; else nothing.
pub open spec fn section(enabled: bool, heading: Seq<char>, es: Entries) -> Seq<char> {
    if enabled && es.len() > 0 {
        heading + entry_lines(es)
    } else {
        Seq::empty()
    }
}

/// The title of the notification made from a unified alert.
pub open spec fn unified_title(p: UnifiedPayload, c: NotificationConfig) -> Seq<char> {
    annotation_or(c.title_annotation, p.common_annotations@, p.title@)
}

/// The text that the body of a unified alert's notification starts with.
pub open spec fn unified_base_body(p: UnifiedPayload, c: NotificationConfig) -> Seq<char> {
    annotation_or(c.body_annotation, p.common_annotations@, p.message@)
}

/// The body of the notification made from a unified alert.
pub open spec fn unified_body(p: UnifiedPayload, c: NotificationConfig) -> Seq<char> {
    unified_base_body(p, c)
        + section(c.append_labels, "\n\nLabels:"@, p.common_labels@)
        + section(c.append_annotations, "\n\nAnnotations:"@, p.common_annotations@)
}

/// `r` is the notification made from the unified alert `p` under `c`.
pub open spec fn is_unified_notification(
    r: ApprisePayload,
    p: UnifiedPayload,
    c: NotificationConfig,
) -> bool {
    &&& r.title@ == unified_title(p, c)
    &&& r.body@ == unified_body(p, c)
    &&& r.notification_type == state_of_status(p.status@)
}

/// `r` is the notification made from the legacy alert `p`.
pub open spec fn is_legacy_notification(r: ApprisePayload, p: LegacyPayload) -> bool {
    &&& r.title@ == p.title@
    &&& r.body@ == p.message@
    &&& r.notification_type == state_of_grafana(p.state)
}

/// `r` is the notification made from the webhook body `p` under `c`.
pub open spec fn is_notification(r: ApprisePayload, p: GrafanaPayload, c: NotificationConfig) -> bool {
    match p {
        GrafanaPayload::Legacy(l) => is_legacy_notification(r, l),
        GrafanaPayload::Unified(u) => is_unified_notification(r, u, c),
    }
}

/// The configuration used where none is given: both lists are appended and
/// no annotation replaces the title or the body.
pub open spec fn default_notification_config() -> NotificationConfig {
    NotificationConfig {
        append_labels: true,
        append_annotations: true,
        title_annotation: None,
        body_annotation: None,
    }
}

impl NotificationConfig {
    /// The configuration used where none is given.
    pub fn default_config() -> (c: Self)
        ensures
            c == default_notification_config(),
    {
        NotificationConfig {
            append_labels: true,
            append_annotations: true,
            title_annotation: None,
            body_annotation: None,
        }
    }
}

/// The value of the annotation named by `key`, or `fallback`.
fn annotation_or_else(key: &Option<String>, annotations: &KeyValues, fallback: String) -> (res: String)
    ensures
        res@ == annotation_or(*key, annotations@, fallback@),
{
    match key {
        Some(k) => match annotations.get(k) {
            Some(v) => v.clone(),
            None => fallback,
        },
        None => fallback,
    }
}

/// Appends a heading and then one line for each entry.
fn append_section(body: &mut String, heading: &str, entries: &KeyValues)
    ensures
        final(body)@ == old(body)@ + heading@ + entry_lines(entries@),
{
    let ghost start = body@ + heading@;
    body.append(heading);
    let n = entries.len();
    let mut i: usize = 0;
    while i < n
        invariant
            n == entries@.len(),
            i <= n,
            body@ == start + entry_lines(entries@.take(i as int)),
        decreases n - i,
    {
        let (k, v) = entries.entry(i);
        body.append("\n- ");
        body.append(k.as_str());
        body.append(": ");
        body.append(v.as_str());
        proof {
            let es = entries@.take(i + 1);
            assert(es.drop_last() =~= entries@.take(i as int));
            assert(es.last() == entries@[i as int]);
        }
        i = i + 1;
    }
    assert(entries@.take(n as int) =~= entries@);
}

impl ApprisePayload {
    /// The notification for a webhook body: a legacy alert is converted as it
    /// is, a unified alert according to `config`.
    pub fn from_grafana_payload(gf_payload: GrafanaPayload, config: &NotificationConfig) -> (res: Self)
        ensures
            is_notification(res, gf_payload, *config),
    {
        match gf_payload {
            GrafanaPayload::Legacy(p) => ApprisePayload::from(p),
            GrafanaPayload::Unified(p) => ApprisePayload::from_unified(p, config),
        }
    }

    /// The notification for a unified alert under `config`.
    pub fn from_unified(gf_payload: UnifiedPayload, config: &NotificationConfig) -> (res: Self)
        ensures
            is_unified_notification(res, gf_payload, *config),
    {
        let ghost p = gf_payload;
        let notification_type = if gf_payload.status == String::from_str("firing") {
            AppriseState::Failure
        } else if gf_payload.status == String::from_str("resolved") {
            AppriseState::Success
        } else {
            AppriseState::Info
        };

        let title = annotation_or_else(
            &config.title_annotation,
            &gf_payload.common_annotations,
            gf_payload.title,
        );

        let mut body = annotation_or_else(
            &config.body_annotation,
            &gf_payload.common_annotations,
            gf_payload.message,
        );
        let ghost base = body@;

        if config.append_labels && !gf_payload.common_labels.is_empty() {
            append_section(&mut body, "\n\nLabels:", &gf_payload.common_labels);
        }
        let ghost with_labels = body@;
        assert(with_labels == base + section(config.append_labels, "\n\nLabels:"@, p.common_labels@));

        if config.append_annotations && !gf_payload.common_annotations.is_empty() {
            append_section(&mut body, "\n\nAnnotations:", &gf_payload.common_annotations);
        }
        assert(body@ == with_labels + section(config.append_annotations, "\n\nAnnotations:"@, p.common_annotations@));

        ApprisePayload { title, body, notification_type }
    }
}

impl From<GrafanaState> for AppriseState {
    /// The kind of notification that a legacy alert state gives.
    fn from(gf_state: GrafanaState) -> (res: AppriseState) {
        match gf_state {
            GrafanaState::OK => AppriseState::Success,
            GrafanaState::Paused => AppriseState::Info,
            GrafanaState::Alerting => AppriseState::Failure,
            GrafanaState::Pending => AppriseState::Info,
            GrafanaState::NoData => AppriseState::Warning,
        }
    }
}

impl vstd::std_specs::convert::FromSpecImpl<GrafanaState> for AppriseState {
    open spec fn obeys_from_spec() -> bool {
        true
    }

    open spec fn from_spec(v: GrafanaState) -> AppriseState {
        state_of_grafana(v)
    }
}

impl From<LegacyPayload> for ApprisePayload {
    /// The notification for a legacy alert: its title, its message, and the
    /// kind that its state gives.
    fn from(gf_payload: LegacyPayload) -> (res: ApprisePayload)
        ensures
            is_legacy_notification(res, gf_payload),
    {
        ApprisePayload {
            title: gf_payload.title,
            body: gf_payload.message,
            notification_type: AppriseState::from(gf_payload.state),
        }
    }
}

/// A notification holds strings, so no value of the type can be named in
/// specifications: `from` states what it returns in its own `ensures`.
impl vstd::std_specs::convert::FromSpecImpl<LegacyPayload> for ApprisePayload {
    open spec fn obeys_from_spec() -> bool {
        false
    }

    open spec fn from_spec(v: LegacyPayload) -> ApprisePayload {
        choose|r: ApprisePayload| is_legacy_notification(r, v)
    }
}

impl From<UnifiedPayload> for ApprisePayload {
    /// The notification for a unified alert under the default configuration.
    fn from(gf_payload: UnifiedPayload) -> (res: ApprisePayload)
        ensures
            is_unified_notification(res, gf_payload, default_notification_config()),
    {
        ApprisePayload::from_unified(gf_payload, &NotificationConfig::default_config())
    }
}

/// See the impl for legacy alerts.
impl vstd::std_specs::convert::FromSpecImpl<UnifiedPayload> for ApprisePayload {
    open spec fn obeys_from_spec() -> bool {
        false
    }

    open spec fn from_spec(v: UnifiedPayload) -> ApprisePayload {
        choose|r: ApprisePayload| is_unified_notification(r, v, default_notification_config())
    }
}

impl From<GrafanaPayload> for ApprisePayload {
    /// The notification for a webhook body under the default configuration.
    fn from(gf_payload: GrafanaPayload) -> (res: ApprisePayload)
        ensures
            is_notification(res, gf_payload, default_notification_config()),
    {
        ApprisePayload::from_grafana_payload(gf_payload, &NotificationConfig::default_config())
    }
}

/// See the impl for legacy alerts.
impl vstd::std_specs::convert::FromSpecImpl<GrafanaPayload> for ApprisePayload {
    open spec fn obeys_from_spec() -> bool {
        false
    }

    open spec fn from_spec(v: GrafanaPayload) -> ApprisePayload {
        choose|r: ApprisePayload| is_notification(r, v, default_notification_config())
    }
}

/// The path, relative to the Apprise host, of the notify endpoint for `key`.
pub open spec fn notify_path(key: Seq<char>) -> Seq<char> {
    "/notify/"@ + key
}

/// The texts of some strings.
pub open spec fn texts(tags: Seq<String>) -> Seq<Seq<char>> {
    tags.map_values(|t: String| t@)
}

/// The tags, separated by commas.
pub open spec fn comma_list(tags: Seq<Seq<char>>) -> Seq<char>
    decreases tags.len(),
{
    if tags.len() == 0 {
        Seq::empty()
    } else if tags.len() == 1 {
        tags[0]
    } else {
        comma_list(tags.drop_last()) + ","@ + tags.last()
    }
}

/// The query that selects the tags: `tag=` and the tags, separated by commas.
pub open spec fn tag_query(tags: Seq<Seq<char>>) -> Seq<char> {
    "tag="@ + comma_list(tags)
}

/// The serialization of the notify URL for `key` and `tags` on `host`, or
/// the text of the error that joining the path gave.
pub open spec fn notify_url_result(host: Seq<char>, key: Seq<char>, tags: Seq<Seq<char>>) -> Result<
    Seq<char>,
    Seq<char>,
> {
    match url_join_result(host, notify_path(key)) {
        Ok(joined) => if tags.len() == 0 {
            Ok(joined)
        } else {
            Ok(url_with_query_result(joined, tag_query(tags)))
        },
        Err(m) => Err(m),
    }
}

/// Setting the tag query on the joined notify URL stays within the sizes
/// that the `url` crate handles.
pub open spec fn notify_url_fits(host: Seq<char>, key: Seq<char>, tags: Seq<Seq<char>>) -> bool {
    match url_join_result(host, notify_path(key)) {
        Ok(joined) => tags.len() > 0 ==> query_fits(joined, tag_query(tags)),
        Err(_) => true,
    }
}

/// Builds `tag=` followed by the tags, separated by commas.
pub fn tag_query_string(tags: &[String]) -> (res: String)
    ensures
        res@ == tag_query(texts(tags@)),
{
    let mut res = String::from_str("tag=");
    let ghost prefix = res@;
    let n = tags.len();
    let mut i: usize = 0;
    while i < n
        invariant
            n == tags@.len(),
            i <= n,
            prefix == "tag="@,
            res@ == prefix + comma_list(texts(tags@).take(i as int)),
        decreases n - i,
    {
        let ghost before = texts(tags@).take(i as int);
        if i > 0 {
            res.append(",");
        }
        res.append(tags[i].as_str());
        proof {
            let now = texts(tags@).take(i + 1);
            assert(now.drop_last() =~= before);
            assert(now.last() == tags@[i as int]@);
            if i == 0 {
                assert(before =~= Seq::<Seq<char>>::empty());
            }
        }
        i = i + 1;
    }
    assert(texts(tags@).take(n as int) =~= texts(tags@));
    res
}

/// The Apprise URL that notifies the configuration `key` on `host`: the path
/// `/notify/<key>` joined to `host`, with the query `tag=<tags, separated by
/// commas>` where there is a tag.
pub fn get_apprise_notify_url(host: &ServiceUrl, key: &str, tags: &[String]) -> (res: Result<
    ServiceUrl,
    UrlError,
>)
    requires
        notify_url_fits(host@, key@, texts(tags@)),
    ensures
        service_url_result_view(res) == notify_url_result(host@, key@, texts(tags@)),
{
    let mut path = String::from_str("/notify/");
    path.append(key);
    let mut url = match host.join(path.as_str()) {
        Ok(url) => url,
        Err(e) => return Err(e),
    };
    if tags.len() > 0 {
        let query = tag_query_string(tags);
        url.set_query(query.as_str());
    }
    Ok(url)
}

/// The Apprise base URL from the value of its setting, where it is set and
/// parses as an absolute URL.
pub fn get_apprise_url(apprise_env: Option<&str>) -> (res: Option<ServiceUrl>)
    ensures
        match apprise_env {
            Some(text) => match url_parse_result(text@) {
                Ok(u) => res matches Some(r) && r@ == u,
                Err(_) => res is None,
            },
            None => res is None,
        },
{
    match apprise_env {
        Some(text) => match ServiceUrl::parse(text) {
            Ok(u) => Some(u),
            Err(_) => None,
        },
        None => None,
    }
}

/// A legacy alert becomes the same notification under every configuration.
pub proof fn lemma_legacy_ignores_config(
    r: ApprisePayload,
    p: LegacyPayload,
    c1: NotificationConfig,
    c2: NotificationConfig,
)
    ensures
        is_notification(r, GrafanaPayload::Legacy(p), c1) == is_notification(
            r,
            GrafanaPayload::Legacy(p),
            c2,
        ),
{
}

/// The body of a unified alert's notification starts with its message, or
/// with the annotation that the configuration names in its place; labels and
/// annotations only follow it.
pub proof fn lemma_body_starts_with_base(p: UnifiedPayload, c: NotificationConfig)
    ensures
        unified_body(p, c).len() >= unified_base_body(p, c).len(),
        unified_body(p, c).take(unified_base_body(p, c).len() as int) == unified_base_body(p, c),
{
    let base = unified_base_body(p, c);
    let rest = section(c.append_labels, "\n\nLabels:"@, p.common_labels@) + section(
        c.append_annotations,
        "\n\nAnnotations:"@,
        p.common_annotations@,
    );
    assert(unified_body(p, c) =~= base + rest);
    assert((base + rest).take(base.len() as int) =~= base);
}

/// Where no list is appended, or the lists are empty, the body is the
/// message, or the annotation that the configuration names in its place.
pub proof fn lemma_body_without_lists(p: UnifiedPayload, c: NotificationConfig)
    requires
        !c.append_labels || p.common_labels@.len() == 0,
        !c.append_annotations || p.common_annotations@.len() == 0,
    ensures
        unified_body(p, c) == unified_base_body(p, c),
{
    assert(unified_body(p, c) =~= unified_base_body(p, c));
}

/// A configuration that appends nothing and names no annotation passes the
/// title and the message of a unified alert through unchanged.
pub proof fn lemma_plain_config_keeps_text(p: UnifiedPayload, c: NotificationConfig)
    requires
        !c.append_labels,
        !c.append_annotations,
        c.title_annotation is None,
        c.body_annotation is None,
    ensures
        unified_title(p, c) == p.title@,
        unified_body(p, c) == p.message@,
{
    lemma_body_without_lists(p, c);
}

/// An annotation named for the title or the body replaces it exactly where
/// the alert has that annotation.
pub proof fn lemma_named_annotation_replaces(p: UnifiedPayload, c: NotificationConfig, k: String)
    requires
        c.title_annotation == Some(k) || c.body_annotation == Some(k),
    ensures
        c.title_annotation == Some(k) ==> unified_title(p, c) == match lookup(
            p.common_annotations@,
            k@,
        ) {
            Some(v) => v,
            None => p.title@,
        },
        c.body_annotation == Some(k) ==> unified_base_body(p, c) == match lookup(
            p.common_annotations@,
            k@,
        ) {
            Some(v) => v,
            None => p.message@,
        },
{
}

/// Without a tag the notify URL is the joined path, with no query.
pub proof fn lemma_no_tags_no_query(host: Seq<char>, key: Seq<char>)
    ensures
        notify_path(key) == "/notify/"@ + key,
        notify_url_result(host, key, Seq::empty()) == url_join_result(host, "/notify/"@ + key),
{
}

/// With tags, the notify URL is the joined path with the query `tag=` and
/// the tags, separated by commas, in the order given.
pub proof fn lemma_tags_make_query(host: Seq<char>, key: Seq<char>, tags: Seq<Seq<char>>)
    requires
        tags.len() > 0,
        url_join_result(host, notify_path(key)) is Ok,
    ensures
        notify_url_result(host, key, tags) == Ok::<Seq<char>, Seq<char>>(
            url_with_query_result(url_join_result(host, notify_path(key))->Ok_0, tag_query(tags)),
        ),
{
}

/// Listing one more entry adds exactly one line at the end: a new line, a
/// dash and a space, the key, a colon and a space, and the value. Nothing is
/// listed for no entry.
pub proof fn lemma_entry_lines_push(es: Entries, e: (Seq<char>, Seq<char>))
    ensures
        entry_lines(Seq::<(Seq<char>, Seq<char>)>::empty()) == Seq::<char>::empty(),
        entry_lines(es.push(e)) == entry_lines(es) + "\n- "@ + e.0 + ": "@ + e.1,
{
    assert(es.push(e).drop_last() =~= es);
    assert(entry_lines(es) + entry_line(e) =~= entry_lines(es) + "\n- "@ + e.0 + ": "@ + e.1);
}

/// The tag list holds every tag, in order, one comma between each two: one
/// tag is itself, and one more tag adds a comma and that tag at the end. The
/// query is `tag=` followed by that list.
pub proof fn lemma_tag_query_lists_every_tag(tags: Seq<Seq<char>>, t: Seq<char>)
    ensures
        comma_list(Seq::<Seq<char>>::empty()) == Seq::<char>::empty(),
        comma_list(seq![t]) == t,
        tags.len() > 0 ==> comma_list(tags.push(t)) == comma_list(tags) + ","@ + t,
        tag_query(seq![t]) == "tag="@ + t,
        tags.len() > 0 ==> tag_query(tags.push(t)) == tag_query(tags) + ","@ + t,
{
    assert(tags.push(t).drop_last() =~= tags);
    assert(tag_query(tags.push(t)) =~= "tag="@ + (comma_list(tags.push(t))));
    if tags.len() > 0 {
        assert(("tag="@ + comma_list(tags)) + ","@ + t =~= "tag="@ + (comma_list(tags) + ","@ + t));
    }
}

/// The notification of a legacy alert is its title and its message exactly,
/// whatever its tags and image and whatever the configuration, with the kind
/// that its state gives.
pub proof fn lemma_legacy_notification(r: ApprisePayload, p: LegacyPayload, c: NotificationConfig)
    requires
        is_notification(r, GrafanaPayload::Legacy(p), c),
    ensures
        r.title@ == p.title@,
        r.body@ == p.message@,
        r.notification_type == match p.state {
            GrafanaState::OK => AppriseState::Success,
            GrafanaState::Paused => AppriseState::Info,
            GrafanaState::Alerting => AppriseState::Failure,
            GrafanaState::Pending => AppriseState::Info,
            GrafanaState::NoData => AppriseState::Warning,
        },
{
}

/// The kind of a unified alert's notification: a firing alert fails, a
/// resolved one succeeds, any other status informs.
pub proof fn lemma_unified_kind(r: ApprisePayload, p: UnifiedPayload, c: NotificationConfig)
    requires
        is_unified_notification(r, p, c),
    ensures
        p.status@ == "firing"@ ==> r.notification_type == AppriseState::Failure,
        p.status@ == "resolved"@ ==> r.notification_type == AppriseState::Success,
        p.status@ != "firing"@ && p.status@ != "resolved"@ ==> r.notification_type
            == AppriseState::Info,
{
    reveal_strlit("firing");
    reveal_strlit("resolved");
    assert("firing"@[0] != "resolved"@[0]);
}

/// The body of a unified alert's notification starts with the message where
/// no body annotation is named, and with the named annotation where the alert
/// has it; likewise the title with the title.
pub proof fn lemma_unified_base_body(p: UnifiedPayload, c: NotificationConfig)
    ensures
        c.title_annotation is None ==> unified_title(p, c) == p.title@,
        c.body_annotation is None ==> unified_base_body(p, c) == p.message@,
        match c.body_annotation {
            Some(k) => unified_base_body(p, c) == match lookup(p.common_annotations@, k@) {
                Some(v) => v,
                None => p.message@,
            },
            None => unified_base_body(p, c) == p.message@,
        },
{
}

/// After its first text, the body of a unified alert's notification lists
/// the labels where they are appended and there is one, under `Labels:`, and
/// then, on their own account, the annotations where they are appended and
/// there is one, under `Annotations:`; nothing else follows.
pub proof fn lemma_unified_body_lists(r: ApprisePayload, p: UnifiedPayload, c: NotificationConfig)
    requires
        is_unified_notification(r, p, c),
    ensures
        ({
            let base = unified_base_body(p, c);
            let labels = "\n\nLabels:"@ + entry_lines(p.common_labels@);
            let annotations = "\n\nAnnotations:"@ + entry_lines(p.common_annotations@);
            let with_labels = c.append_labels && p.common_labels@.len() > 0;
            let with_annotations = c.append_annotations && p.common_annotations@.len() > 0;
            &&& with_labels && with_annotations ==> r.body@ == base + labels + annotations
            &&& with_labels && !with_annotations ==> r.body@ == base + labels
            &&& !with_labels && with_annotations ==> r.body@ == base + annotations
            &&& !with_labels && !with_annotations ==> r.body@ == base
        }),
{
    let base = unified_base_body(p, c);
    let labels = "\n\nLabels:"@ + entry_lines(p.common_labels@);
    let annotations = "\n\nAnnotations:"@ + entry_lines(p.common_annotations@);
    assert(base + Seq::<char>::empty() + Seq::<char>::empty() =~= base);
    assert(base + labels + Seq::<char>::empty() =~= base + labels);
    assert(base + Seq::<char>::empty() + annotations =~= base + annotations);
}

/// Naming annotations for the title or the body changes only the first text
/// of the body: two configurations that append the same lists give bodies
/// that agree after it.
pub proof fn lemma_lists_ignore_named_annotations(
    r1: ApprisePayload,
    r2: ApprisePayload,
    p: UnifiedPayload,
    c1: NotificationConfig,
    c2: NotificationConfig,
)
    requires
        is_unified_notification(r1, p, c1),
        is_unified_notification(r2, p, c2),
        c1.append_labels == c2.append_labels,
        c1.append_annotations == c2.append_annotations,
    ensures
        r1.body@.len() >= unified_base_body(p, c1).len(),
        r2.body@.len() >= unified_base_body(p, c2).len(),
        r1.body@.skip(unified_base_body(p, c1).len() as int) == r2.body@.skip(
            unified_base_body(p, c2).len() as int,
        ),
{
    lemma_unified_body_lists(r1, p, c1);
    lemma_unified_body_lists(r2, p, c2);
    let b1 = unified_base_body(p, c1);
    let b2 = unified_base_body(p, c2);
    let labels = "\n\nLabels:"@ + entry_lines(p.common_labels@);
    let annotations = "\n\nAnnotations:"@ + entry_lines(p.common_annotations@);
    let with_labels = c1.append_labels && p.common_labels@.len() > 0;
    let with_annotations = c1.append_annotations && p.common_annotations@.len() > 0;
    let rest = if with_labels && with_annotations {
        labels + annotations
    } else if with_labels {
        labels
    } else if with_annotations {
        annotations
    } else {
        Seq::<char>::empty()
    };
    assert(r1.body@ =~= b1 + rest);
    assert(r2.body@ =~= b2 + rest);
    assert((b1 + rest).skip(b1.len() as int) =~= rest);
    assert((b2 + rest).skip(b2.len() as int) =~= rest);
}

} // verus!
