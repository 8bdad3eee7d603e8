//! HTTP client metrics following the OpenTelemetry semantic conventions:
//! the labels, body sizes and durations that a client middleware records
//! for each request that it sends.

mod future;
mod label;
mod laws;
mod layer;
mod request_metrics;
mod response_metrics;
mod service;
mod text;

pub use future::{
    measurement_of, Measurement, MeasurementView, MetricsFuture, HTTP_CLIENT_REQUEST_BODY_SIZE,
    HTTP_CLIENT_REQUEST_DURATION, HTTP_CLIENT_RESPONSE_BODY_SIZE,
};
pub use label::{label_views, present, LabelView, MetricLabel};
pub use laws::{
    is_standard_method, label_keys, lemma_content_length_is_header_number, lemma_default_ports,
    lemma_explicit_port_wins, lemma_header_text, lemma_measurement_keys_distinct,
    lemma_measurement_parts, lemma_outcome_metrics, lemma_request_label_values_bounded,
    lemma_request_labels_shape, lemma_request_metrics_of_head, lemma_version_texts,
};
pub use layer::MetricsLayer;
pub use request_metrics::{
    default_port, default_port_spec, http_request_method, is_known_method, method_label,
    network_protocol_version, port_or_known_default, port_or_known_default_spec, request_labels,
    request_metrics_of, url_scheme, url_scheme_label, version_text, HttpVersion, RequestHead,
    RequestMetrics, RequestMetricsView,
};
pub use response_metrics::{
    content_length, content_length_value, header_text, http_response_status_code,
    response_labels, response_metrics_of, status_code_label, ResponseMetrics,
    ResponseMetricsView, ResponseOutcome,
};
pub use service::MetricsService;
pub use text::{
    decimal, digits_value, lemma_decimal_spells, lemma_parse_decimal, parse_u64, parse_u64_spec,
    to_decimal,
};
