# http_client_metrics

Client-side HTTP metrics after the OpenTelemetry semantic conventions: for
each request, a duration, a request body size and a response body size,
labelled with the method, server address and port, protocol name and
version, URL scheme, and the status code or error.

- `src/` is the verified library: the label and size rules
  (`request_metrics.rs`, `response_metrics.rs`), decimal text
  (`text.rs`), the once-only measurement of a request in flight
  (`future.rs`), the service and layer types, and the laws (`laws.rs`).
- `app/` plugs it into `tower`: it reads `http` requests and responses
  into the library's plain types, awaits the inner future, and records the
  measurement into the `metrics` recorder.
