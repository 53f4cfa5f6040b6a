# grafana-apprise-adapter

Sends Grafana alerts to the Apprise API as notifications.

- `src/` is the verified library: the conversion of Grafana's webhook bodies
  (legacy and unified alerting) into Apprise notifications, the key/value
  collection that holds labels and annotations, the notify URL with its tag
  query, and the per-request resolution of the settings. URLs are parsed,
  joined and given their query by the `url` crate.
- `app/` is the HTTP service around it: it reads the settings from the
  environment, receives webhooks with actix-web, posts to Apprise with awc,
  and holds the serde copies of the library's types.
- `tests/` runs the library on concrete alerts and URLs.
