//! The metrics of a request in flight: taken when the request is sent,
//! turned into one measurement when its outcome is known.
use vstd::prelude::*;

use crate::label::{label_views, LabelView, MetricLabel};
use crate::request_metrics::{request_labels, RequestMetrics, RequestMetricsView};
use crate::response_metrics::{
    response_labels, response_metrics_of, ResponseMetrics, ResponseOutcome,
};

verus! {

/// Histogram of request durations, in seconds.
pub const HTTP_CLIENT_REQUEST_DURATION: &'static str = "http.client.request.duration";

/// Histogram of request body sizes, in bytes.
pub const HTTP_CLIENT_REQUEST_BODY_SIZE: &'static str = "http.client.request.body.size";

/// Histogram of response body sizes, in bytes.
pub const HTTP_CLIENT_RESPONSE_BODY_SIZE: &'static str = "http.client.response.body.size";

/// What is recorded for one completed request: the three histogram samples
/// and the labels they all carry.
pub struct Measurement {
    pub labels: Vec<MetricLabel>,
    pub duration_millis: u128,
    pub request_body_size: u64,
    pub response_body_size: u64,
}

/// What a `Measurement` holds.
pub struct MeasurementView {
    pub labels: Seq<LabelView>,
    pub duration_millis: u128,
    pub request_body_size: u64,
    pub response_body_size: u64,
}

impl View for Measurement {
    type V = MeasurementView;

    open spec fn view(&self) -> MeasurementView {
        MeasurementView {
            labels: label_views(self.labels@),
            duration_millis: self.duration_millis,
            request_body_size: self.request_body_size,
            response_body_size: self.response_body_size,
        }
    }
}

/// The measurement of a request with the given metrics, outcome and
/// duration: the request labels followed by the response labels.
pub open spec fn measurement_of(
    request: RequestMetricsView,
    outcome: ResponseOutcome,
    duration_millis: u128,
) -> MeasurementView {
    let response = response_metrics_of(outcome);
    MeasurementView {
        labels: request_labels(request) + response_labels(response),
        duration_millis,
        request_body_size: request.body_size,
        response_body_size: response.body_size,
    }
}

/// The metrics state of a request in flight: the request metrics until
/// the outcome is known, nothing afterwards.
pub struct MetricsFuture {
    req_met: Option<RequestMetrics>,
}

impl View for MetricsFuture {
    type V = Option<RequestMetricsView>;

    closed spec fn view(&self) -> Option<RequestMetricsView> {
        match self.req_met {
            Some(r) => Some(r@),
            None => None,
        }
    }
}

impl MetricsFuture {
    /// The state of a request just sent with the given metrics.
    pub fn new(req_met: RequestMetrics) -> (res: MetricsFuture)
        ensures
            res@ == Some(req_met@),
    {
        MetricsFuture { req_met: Some(req_met) }
    }

    /// Whether the measurement of the request is still to be given.
    pub fn is_pending(&self) -> (res: bool)
        ensures
            res == (self@ is Some),
    {
        self.req_met.is_some()
    }

    /// Called once the outcome of the request is known, `duration_millis`
    /// after it was sent: gives the measurement to record, the first time
    /// only.
    pub fn complete(&mut self, outcome: &ResponseOutcome, duration_millis: u128) -> (res: Option<
        Measurement,
    >)
        ensures
            final(self)@ is None,
            match old(self)@ {
                Some(request) => res matches Some(m) && m@ == measurement_of(
                    request,
                    *outcome,
                    duration_millis,
                ),
                None => res is None,
            },
    {
        match self.req_met.take() {
            Some(req_met) => {
                let ghost request = req_met@;
                let res_met = ResponseMetrics::new(outcome);
                let request_body_size = req_met.http_client_request_body_size();
                let response_body_size = res_met.http_client_response_body_size();
                let mut labels = req_met.labels();
                let mut response = res_met.labels();
                labels.append(&mut response);
                proof {
                    assert(label_views(labels@) =~= request_labels(request) + response_labels(
                        response_metrics_of(*outcome),
                    ));
                }
                Some(Measurement { labels, duration_millis, request_body_size, response_body_size })
            },
            None => None,
        }
    }
}

} // verus!
