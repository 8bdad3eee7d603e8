//! What the outcome of a client request contributes to its metrics: the
//! response body size and the response labels.
use vstd::prelude::*;

use crate::label::{label_views, present, push_present, LabelView, MetricLabel};
use crate::text::{decimal, parse_u64, parse_u64_spec, to_decimal};

verus! {

pub const ERROR_TYPE: &'static str = "error.type";

pub const HTTP_RESPONSE_STATUS_CODE: &'static str = "http.response.status_code";

/// How a request ended: with a response, of which the metrics read the
/// status code and the raw bytes of the first `Content-Length` header, or
/// with an error, of which they read the text.
#[derive(Clone, Debug)]
pub enum ResponseOutcome {
    Response { status: u16, content_length: Option<Vec<u8>> },
    Error { message: String },
}

/// Whether a header byte is visible ASCII: a tab, or a printable
/// character from space to `~`.
pub open spec fn is_visible_ascii(b: u8) -> bool {
    (32 <= b && b < 127) || b == 9
}

/// The text of a header value: defined when every byte is visible ASCII,
/// each byte then being one character.
pub open spec fn header_text(bytes: Seq<u8>) -> Option<Seq<char>> {
    if forall|i: int| 0 <= i < bytes.len() ==> is_visible_ascii(#[trigger] bytes[i]) {
        Some(bytes.map_values(|b: u8| b as char))
    } else {
        None
    }
}

/// The response body size that a `Content-Length` header gives: its value
/// when the header is there, is text, and parses as a `u64`; else 0.
pub open spec fn content_length_value(header: Option<Vec<u8>>) -> u64 {
    match header {
        Some(bytes) => match header_text(bytes@) {
            Some(text) => match parse_u64_spec(text) {
                Some(n) => n,
                None => 0,
            },
            None => 0,
        },
        None => 0,
    }
}

/// What a `ResponseMetrics` holds.
pub struct ResponseMetricsView {
    pub body_size: u64,
    pub error_type: Option<Seq<char>>,
    pub status_code: Option<u16>,
}

/// The metrics taken from the outcome of a request.
pub open spec fn response_metrics_of(outcome: ResponseOutcome) -> ResponseMetricsView {
    match outcome {
        ResponseOutcome::Response { status, content_length } => ResponseMetricsView {
            body_size: content_length_value(content_length),
            error_type: None,
            status_code: Some(status),
        },
        ResponseOutcome::Error { message } => ResponseMetricsView {
            body_size: 0,
            error_type: Some(message@),
            status_code: None,
        },
    }
}

/// The label of a response status code: the code in decimal.
pub open spec fn status_code_label(code: u16) -> LabelView {
    (HTTP_RESPONSE_STATUS_CODE@, decimal(code as nat))
}

/// The labels of response metrics, in the order they are recorded.
pub open spec fn response_labels(m: ResponseMetricsView) -> Seq<LabelView> {
    present(
        match m.error_type {
            Some(e) => Some((ERROR_TYPE@, e)),
            None => None,
        },
    ) + present(
        match m.status_code {
            Some(c) => Some(status_code_label(c)),
            None => None,
        },
    )
}

/// The body size and labels of the outcome of one client request.
pub struct ResponseMetrics {
    http_client_response_body_size: u64,
    error_type: Option<String>,
    http_response_status_code: Option<u16>,
}

impl View for ResponseMetrics {
    type V = ResponseMetricsView;

    closed spec fn view(&self) -> ResponseMetricsView {
        ResponseMetricsView {
            body_size: self.http_client_response_body_size,
            error_type: match self.error_type {
                Some(e) => Some(e@),
                None => None,
            },
            status_code: self.http_response_status_code,
        }
    }
}

/// The text of a header value (`http::HeaderValue::to_str`).
///
/// The bytes are first made a `HeaderValue` with `HeaderValue::from_bytes`,
/// which accepts every byte that `to_str` accepts. The contract claims
/// what http's source shows: the text exists exactly when every byte is a
/// tab or lies in 32..=126, and its characters are then the bytes.
#[verifier::external_body]
fn header_value_to_str(bytes: &[u8]) -> (res: Option<String>)
    ensures
        match res {
            Some(s) => header_text(bytes@) == Some(s@),
            None => header_text(bytes@) is None,
        },
{
    match http::HeaderValue::from_bytes(bytes) {
        Ok(value) => match value.to_str() {
            Ok(text) => Some(text.to_string()),
            Err(_) => None,
        },
        Err(_) => None,
    }
}

/// The response body size announced by a `Content-Length` header value,
/// or 0 when there is none or it is not a decimal `u64`.
pub fn content_length(header: &Option<Vec<u8>>) -> (res: u64)
    ensures
        res == content_length_value(*header),
{
    match header {
        Some(bytes) => match header_value_to_str(bytes.as_slice()) {
            Some(text) => match parse_u64(text.as_str()) {
                Some(n) => n,
                None => 0,
            },
            None => 0,
        },
        None => 0,
    }
}

impl ResponseMetrics {
    /// Takes the metrics of the outcome of a request.
    pub fn new(outcome: &ResponseOutcome) -> (res: ResponseMetrics)
        ensures
            res@ == response_metrics_of(*outcome),
    {
        match outcome {
            ResponseOutcome::Response { status, content_length: header } => ResponseMetrics {
                http_client_response_body_size: content_length(header),
                error_type: None,
                http_response_status_code: Some(*status),
            },
            ResponseOutcome::Error { message } => ResponseMetrics {
                http_client_response_body_size: 0,
                error_type: Some(message.clone()),
                http_response_status_code: None,
            },
        }
    }

    /// The size of the response body.
    pub fn http_client_response_body_size(&self) -> (res: u64)
        ensures
            res == self@.body_size,
    {
        self.http_client_response_body_size
    }

    /// The response labels, in the order they are recorded; absent ones
    /// are left out.
    pub fn labels(self) -> (res: Vec<MetricLabel>)
        ensures
            label_views(res@) == response_labels(self@),
    {
        let ghost m = self@;
        let mut v: Vec<MetricLabel> = Vec::new();
        let error = match self.error_type {
            Some(e) => Some(MetricLabel::new(String::from_str(ERROR_TYPE), e)),
            None => None,
        };
        push_present(&mut v, error);
        let status = match self.http_response_status_code {
            Some(c) => Some(http_response_status_code(c)),
            None => None,
        };
        push_present(&mut v, status);
        assert(label_views(v@) =~= response_labels(m));
        v
    }
}

/// The label of a response status code, whose value is the code in
/// decimal.
pub fn http_response_status_code(code: u16) -> (res: MetricLabel)
    ensures
        res@ == status_code_label(code),
{
    MetricLabel::new(String::from_str(HTTP_RESPONSE_STATUS_CODE), to_decimal(code as u64))
}

} // verus!
