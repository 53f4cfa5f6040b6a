//! Turns Grafana alert webhooks into Apprise notifications.
pub mod apprise;
pub mod grafana;
pub mod key_values;
pub mod service_url;
pub mod notify;
