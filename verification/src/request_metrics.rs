//! What a client request contributes to its metrics: the request body
//! size and the request labels.
use vstd::prelude::*;

use crate::label::{label_views, present, push_present, text_eq, LabelView, MetricLabel};
use crate::text::{decimal, to_decimal};

verus! {

pub const HTTP_REQUEST_METHOD: &'static str = "http.request.method";

pub const SERVER_ADDRESS: &'static str = "server.address";

pub const SERVER_PORT: &'static str = "server.port";

pub const NETWORK_PROTOCOL_NAME: &'static str = "network.protocol.name";

pub const NETWORK_PROTOCOL_VERSION: &'static str = "network.protocol.version";

pub const URL_SCHEME: &'static str = "url.scheme";

/// The HTTP protocol versions a request can be sent with.
#[derive(Clone, Copy, Debug, PartialEq, Eq, Structural)]
pub enum HttpVersion {
    Http09,
    Http10,
    Http11,
    Http2,
    Http3,
}

/// What the metrics read of a request: its method, the host, port and
/// scheme of its URI, its protocol version, and the lower bound of the
/// size of its body.
#[derive(Clone, Debug)]
pub struct RequestHead {
    pub method: String,
    pub host: Option<String>,
    pub port: Option<u16>,
    pub scheme: Option<String>,
    pub version: HttpVersion,
    pub body_size_lower: u64,
}

/// The text of an optional string.
pub open spec fn opt_text(o: Option<String>) -> Option<Seq<char>> {
    match o {
        Some(s) => Some(s@),
        None => None,
    }
}

/// The request methods that keep their own name as label value.
pub open spec fn is_known_method(m: Seq<char>) -> bool {
    ||| m == "GET"@
    ||| m == "HEAD"@
    ||| m == "POST"@
    ||| m == "PUT"@
    ||| m == "DELETE"@
    ||| m == "CONNECT"@
    ||| m == "OPTIONS"@
    ||| m == "TRACE"@
    ||| m == "PATCH"@
    ||| m == "QUERY"@
}

/// The label of the request method `m`: the method itself when it is a
/// known one, `_OTHER` for any other method.
pub open spec fn method_label(m: Seq<char>) -> LabelView {
    (HTTP_REQUEST_METHOD@, if is_known_method(m) { m } else { "_OTHER"@ })
}

/// The label value of a protocol version.
pub open spec fn version_text(v: HttpVersion) -> Seq<char> {
    match v {
        HttpVersion::Http09 => "0.9"@,
        HttpVersion::Http10 => "1.0"@,
        HttpVersion::Http11 => "1.1"@,
        HttpVersion::Http2 => "2"@,
        HttpVersion::Http3 => "3"@,
    }
}

/// The label of a URI scheme: present for `http` and `https` only.
pub open spec fn url_scheme_label(s: Seq<char>) -> Option<LabelView> {
    if s == "http"@ || s == "https"@ {
        Some((URL_SCHEME@, s))
    } else {
        None
    }
}

/// The port that a URI scheme uses when the URI names none.
pub open spec fn default_port_spec(scheme: Seq<char>) -> Option<u16> {
    if scheme == "http"@ || scheme == "ws"@ {
        Some(80)
    } else if scheme == "https"@ || scheme == "wss"@ {
        Some(443)
    } else if scheme == "ftp"@ {
        Some(21)
    } else {
        None
    }
}

/// The explicit port, else the default port of the scheme.
pub open spec fn port_or_known_default_spec(port: Option<u16>, scheme: Option<Seq<char>>) -> Option<u16> {
    match port {
        Some(p) => Some(p),
        None => match scheme {
            Some(s) => default_port_spec(s),
            None => None,
        },
    }
}

/// What a `RequestMetrics` holds.
pub struct RequestMetricsView {
    pub body_size: u64,
    pub method: LabelView,
    pub server_address: Option<Seq<char>>,
    pub server_port: Option<u16>,
    pub version: HttpVersion,
    pub url_scheme: Option<LabelView>,
}

/// The metrics taken from a request head.
pub open spec fn request_metrics_of(head: RequestHead) -> RequestMetricsView {
    RequestMetricsView {
        body_size: head.body_size_lower,
        method: method_label(head.method@),
        server_address: opt_text(head.host),
        server_port: port_or_known_default_spec(head.port, opt_text(head.scheme)),
        version: head.version,
        url_scheme: match head.scheme {
            Some(s) => url_scheme_label(s@),
            None => None,
        },
    }
}

/// The labels of request metrics, in the order they are recorded.
pub open spec fn request_labels(m: RequestMetricsView) -> Seq<LabelView> {
    seq![m.method] + present(
        match m.server_address {
            Some(a) => Some((SERVER_ADDRESS@, a)),
            None => None,
        },
    ) + present(
        match m.server_port {
            Some(p) => Some((SERVER_PORT@, decimal(p as nat))),
            None => None,
        },
    ) + seq![(NETWORK_PROTOCOL_NAME@, "http"@), (NETWORK_PROTOCOL_VERSION@, version_text(m.version))]
        + present(m.url_scheme)
}

/// The body size and labels of one client request.
pub struct RequestMetrics {
    http_client_request_body_size: u64,
    http_request_method: MetricLabel,
    server_address: Option<String>,
    server_port: Option<u16>,
    network_protocol_version: HttpVersion,
    url_scheme: Option<MetricLabel>,
}

impl View for RequestMetrics {
    type V = RequestMetricsView;

    closed spec fn view(&self) -> RequestMetricsView {
        RequestMetricsView {
            body_size: self.http_client_request_body_size,
            method: self.http_request_method@,
            server_address: opt_text(self.server_address),
            server_port: self.server_port,
            version: self.network_protocol_version,
            url_scheme: match self.url_scheme {
                Some(l) => Some(l@),
                None => None,
            },
        }
    }
}

impl RequestMetrics {
    /// Takes the metrics of a request from its head.
    pub fn new(head: &RequestHead) -> (res: RequestMetrics)
        ensures
            res@ == request_metrics_of(*head),
    {
        let url_scheme = match &head.scheme {
            Some(s) => url_scheme(s),
            None => None,
        };
        RequestMetrics {
            http_client_request_body_size: head.body_size_lower,
            http_request_method: http_request_method(&head.method),
            server_address: head.host.clone(),
            server_port: port_or_known_default(head.port, &head.scheme),
            network_protocol_version: head.version,
            url_scheme,
        }
    }

    /// The size of the request body, as far as it is known before sending.
    pub fn http_client_request_body_size(&self) -> (res: u64)
        ensures
            res == self@.body_size,
    {
        self.http_client_request_body_size
    }

    /// The request labels, in the order they are recorded; absent ones
    /// are left out.
    pub fn labels(self) -> (res: Vec<MetricLabel>)
        ensures
            label_views(res@) == request_labels(self@),
    {
        let ghost m = self@;
        let mut v: Vec<MetricLabel> = Vec::new();
        v.push(self.http_request_method);
        assert(label_views(v@) =~= seq![m.method]);
        let address = match self.server_address {
            Some(a) => Some(MetricLabel::new(String::from_str(SERVER_ADDRESS), a)),
            None => None,
        };
        push_present(&mut v, address);
        let ghost after_address = label_views(v@);
        assert(after_address == seq![m.method] + present(
            match m.server_address {
                Some(a) => Some((SERVER_ADDRESS@, a)),
                None => None,
            },
        ));
        let port = match self.server_port {
            Some(p) => Some(MetricLabel::new(String::from_str(SERVER_PORT), to_decimal(p as u64))),
            None => None,
        };
        push_present(&mut v, port);
        let ghost after_port = label_views(v@);
        assert(after_port == after_address + present(
            match m.server_port {
                Some(p) => Some((SERVER_PORT@, decimal(p as nat))),
                None => None,
            },
        ));
        v.push(MetricLabel::from_parts(NETWORK_PROTOCOL_NAME, "http"));
        v.push(network_protocol_version(self.network_protocol_version));
        assert(label_views(v@) =~= after_port + seq![(NETWORK_PROTOCOL_NAME@, "http"@), (NETWORK_PROTOCOL_VERSION@, version_text(m.version))]);
        let ghost after_version = label_views(v@);
        push_present(&mut v, self.url_scheme);
        assert(label_views(v@) == after_version + present(m.url_scheme));
        assert(label_views(v@) =~= request_labels(m));
        v
    }
}

/// The label of a request method.
pub fn http_request_method(method: &String) -> (res: MetricLabel)
    ensures
        res@ == method_label(method@),
{
    let value = if text_eq(method, "GET") {
        "GET"
    } else if text_eq(method, "HEAD") {
        "HEAD"
    } else if text_eq(method, "POST") {
        "POST"
    } else if text_eq(method, "PUT") {
        "PUT"
    } else if text_eq(method, "DELETE") {
        "DELETE"
    } else if text_eq(method, "CONNECT") {
        "CONNECT"
    } else if text_eq(method, "OPTIONS") {
        "OPTIONS"
    } else if text_eq(method, "TRACE") {
        "TRACE"
    } else if text_eq(method, "PATCH") {
        "PATCH"
    } else if text_eq(method, "QUERY") {
        "QUERY"
    } else {
        "_OTHER"
    };
    MetricLabel::from_parts(HTTP_REQUEST_METHOD, value)
}

/// The label of a protocol version.
pub fn network_protocol_version(version: HttpVersion) -> (res: MetricLabel)
    ensures
        res@ == (NETWORK_PROTOCOL_VERSION@, version_text(version)),
{
    let value = match version {
        HttpVersion::Http09 => "0.9",
        HttpVersion::Http10 => "1.0",
        HttpVersion::Http11 => "1.1",
        HttpVersion::Http2 => "2",
        HttpVersion::Http3 => "3",
    };
    MetricLabel::from_parts(NETWORK_PROTOCOL_VERSION, value)
}

/// The label of a URI scheme, for `http` and `https`.
pub fn url_scheme(scheme: &String) -> (res: Option<MetricLabel>)
    ensures
        match res {
            Some(l) => url_scheme_label(scheme@) == Some(l@),
            None => url_scheme_label(scheme@) is None,
        },
{
    if text_eq(scheme, "http") {
        Some(MetricLabel::from_parts(URL_SCHEME, "http"))
    } else if text_eq(scheme, "https") {
        Some(MetricLabel::from_parts(URL_SCHEME, "https"))
    } else {
        None
    }
}

/// The explicit port of a URI, else the default port of its scheme.
pub fn port_or_known_default(port: Option<u16>, scheme: &Option<String>) -> (res: Option<u16>)
    ensures
        res == port_or_known_default_spec(port, opt_text(*scheme)),
{
    match port {
        Some(p) => Some(p),
        None => match scheme {
            Some(s) => default_port(s),
            None => None,
        },
    }
}

/// The port that a URI scheme uses by default: 80 for `http` and `ws`,
/// 443 for `https` and `wss`, 21 for `ftp`.
pub fn default_port(scheme: &String) -> (res: Option<u16>)
    ensures
        res == default_port_spec(scheme@),
{
    if text_eq(scheme, "http") || text_eq(scheme, "ws") {
        Some(80)
    } else if text_eq(scheme, "https") || text_eq(scheme, "wss") {
        Some(443)
    } else if text_eq(scheme, "ftp") {
        Some(21)
    } else {
        None
    }
}

} // verus!
