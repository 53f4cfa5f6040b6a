use vstd::prelude::*;

use crate::key_values::KeyValues;

verus! {

/// The state of an alert in Grafana's legacy alerting.
#[derive(Debug, Clone, Copy, PartialEq, Eq, Structural)]
pub enum GrafanaState {
    OK,
    Paused,
    Alerting,
    Pending,
    NoData,
}

/// A webhook body sent by Grafana, in either of its two formats.
#[derive(Debug, Clone)]
pub enum GrafanaPayload {
    Legacy(LegacyPayload),
    Unified(UnifiedPayload),
}

/// The webhook body of Grafana's legacy alerting.
#[derive(Debug, Clone)]
pub struct LegacyPayload {
    pub title: String,
    pub message: String,
    pub state: GrafanaState,
    pub image: String,
    pub tags: KeyValues,
}

/// The webhook body of Grafana's unified alerting.
#[derive(Debug, Clone)]
pub struct UnifiedPayload {
    pub title: String,
    pub message: String,
    pub status: String,
    pub common_labels: KeyValues,
    pub common_annotations: KeyValues,
}

} // verus!
