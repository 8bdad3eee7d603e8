//! Properties of the library as a whole.
use vstd::prelude::*;

use crate::future::measurement_of;
use crate::label::{present, LabelView};
use crate::request_metrics::{
    default_port_spec, is_known_method, opt_text, port_or_known_default_spec, request_labels,
    request_metrics_of, version_text, HttpVersion, RequestHead, RequestMetricsView,
    HTTP_REQUEST_METHOD, NETWORK_PROTOCOL_NAME, NETWORK_PROTOCOL_VERSION, SERVER_ADDRESS,
    SERVER_PORT, URL_SCHEME,
};
use crate::response_metrics::{
    content_length_value, header_text, response_labels, response_metrics_of, status_code_label,
    ResponseOutcome, ERROR_TYPE, HTTP_RESPONSE_STATUS_CODE,
};
use crate::text::{decimal, lemma_decimal_spells, lemma_parse_decimal, parse_u64_spec};

verus! {

/// The keys of a sequence of labels.
pub open spec fn label_keys(labels: Seq<LabelView>) -> Seq<Seq<char>> {
    labels.map_values(|l: LabelView| l.0)
}

/// The place of a label key in the order in which labels are recorded.
spec fn key_rank(k: Seq<char>) -> int {
    if k == HTTP_REQUEST_METHOD@ {
        0
    } else if k == SERVER_ADDRESS@ {
        1
    } else if k == SERVER_PORT@ {
        2
    } else if k == NETWORK_PROTOCOL_NAME@ {
        3
    } else if k == NETWORK_PROTOCOL_VERSION@ {
        4
    } else if k == URL_SCHEME@ {
        5
    } else if k == ERROR_TYPE@ {
        6
    } else if k == HTTP_RESPONSE_STATUS_CODE@ {
        7
    } else {
        8
    }
}

/// The keys of `s` come in strictly increasing rank, each in `lo..hi`.
spec fn ranked(s: Seq<LabelView>, lo: int, hi: int) -> bool {
    &&& forall|i: int| 0 <= i < s.len() ==> lo <= #[trigger] key_rank(s[i].0) < hi
    &&& forall|i: int, j: int|
        0 <= i < j < s.len() ==> #[trigger] key_rank(s[i].0) < #[trigger] key_rank(s[j].0)
}

proof fn lemma_ranked_concat(a: Seq<LabelView>, b: Seq<LabelView>, lo: int, mid: int, hi: int)
    requires
        lo <= mid <= hi,
        ranked(a, lo, mid),
        ranked(b, mid, hi),
    ensures
        ranked(a + b, lo, hi),
{
    let s = a + b;
    assert forall|i: int| 0 <= i < s.len() implies lo <= #[trigger] key_rank(s[i].0) && key_rank(
        s[i].0,
    ) < hi by {
        if i < a.len() {
            assert(s[i] == a[i]);
            assert(lo <= key_rank(a[i].0) < mid);
        } else {
            let k = i - a.len();
            assert(s[i] == b[k]);
            assert(mid <= key_rank(b[k].0) < hi);
        }
    }
    assert forall|i: int, j: int| 0 <= i < j < s.len() implies #[trigger] key_rank(s[i].0)
        < #[trigger] key_rank(s[j].0) by {
        if j < a.len() {
            assert(s[i] == a[i] && s[j] == a[j]);
        } else if i >= a.len() {
            assert(s[i] == b[i - a.len()] && s[j] == b[j - a.len()]);
        } else {
            assert(s[i] == a[i] && s[j] == b[j - a.len()]);
            assert(key_rank(a[i].0) < mid);
            assert(mid <= key_rank(b[j - a.len()].0));
        }
    }
}

proof fn lemma_ranked_present(o: Option<LabelView>, r: int)
    requires
        o matches Some(l) ==> key_rank(l.0) == r,
    ensures
        ranked(present(o), r, r + 1),
{
}

proof fn lemma_distinct_ranks(keys: Seq<LabelView>)
    requires
        ranked(keys, 0, 8),
    ensures
        label_keys(keys).no_duplicates(),
{
    let k = label_keys(keys);
    assert forall|i: int, j: int| 0 <= i < k.len() && 0 <= j < k.len() && i != j implies k[i]
        != k[j] by {
        if i < j {
            assert(key_rank(keys[i].0) < key_rank(keys[j].0));
        } else {
            assert(key_rank(keys[j].0) < key_rank(keys[i].0));
        }
    }
}

/// No key occurs twice among the labels of a measurement: whatever the
/// request and its outcome, each label names a different attribute.
pub proof fn lemma_measurement_keys_distinct(
    head: RequestHead,
    outcome: ResponseOutcome,
    duration_millis: u128,
)
    ensures
        label_keys(
            measurement_of(request_metrics_of(head), outcome, duration_millis).labels,
        ).no_duplicates(),
{
    reveal_strlit("http.request.method");
    reveal_strlit("server.address");
    reveal_strlit("server.port");
    reveal_strlit("network.protocol.name");
    reveal_strlit("network.protocol.version");
    reveal_strlit("url.scheme");
    reveal_strlit("error.type");
    reveal_strlit("http.response.status_code");
    assert(HTTP_REQUEST_METHOD@.len() == 19);
    assert(SERVER_ADDRESS@.len() == 14);
    assert(SERVER_PORT@.len() == 11);
    assert(NETWORK_PROTOCOL_NAME@.len() == 21);
    assert(NETWORK_PROTOCOL_VERSION@.len() == 24);
    assert(URL_SCHEME@.len() == 10 && URL_SCHEME@[0] == 'u');
    assert(ERROR_TYPE@.len() == 10 && ERROR_TYPE@[0] == 'e');
    assert(HTTP_RESPONSE_STATUS_CODE@.len() == 25);
    assert(key_rank(HTTP_REQUEST_METHOD@) == 0);
    assert(key_rank(SERVER_ADDRESS@) == 1);
    assert(key_rank(SERVER_PORT@) == 2);
    assert(key_rank(NETWORK_PROTOCOL_NAME@) == 3);
    assert(key_rank(NETWORK_PROTOCOL_VERSION@) == 4);
    assert(key_rank(URL_SCHEME@) == 5);
    assert(key_rank(ERROR_TYPE@) == 6);
    assert(key_rank(HTTP_RESPONSE_STATUS_CODE@) == 7);
    let r = request_metrics_of(head);
    let resp = response_metrics_of(outcome);
    let a0: Seq<LabelView> = seq![r.method];
    assert(a0 == present(Some(r.method)));
    lemma_ranked_present(Some(r.method), 0);
    let o1 = match r.server_address {
        Some(a) => Some((SERVER_ADDRESS@, a)),
        None => None,
    };
    lemma_ranked_present(o1, 1);
    lemma_ranked_concat(a0, present(o1), 0, 1, 2);
    let o2 = match r.server_port {
        Some(p) => Some((SERVER_PORT@, decimal(p as nat))),
        None => None,
    };
    lemma_ranked_present(o2, 2);
    lemma_ranked_concat(a0 + present(o1), present(o2), 0, 2, 3);
    let a3: Seq<LabelView> = seq![
        (NETWORK_PROTOCOL_NAME@, "http"@),
        (NETWORK_PROTOCOL_VERSION@, version_text(r.version)),
    ];
    assert(ranked(a3, 3, 5));
    lemma_ranked_concat(a0 + present(o1) + present(o2), a3, 0, 3, 5);
    lemma_ranked_present(r.url_scheme, 5);
    lemma_ranked_concat(a0 + present(o1) + present(o2) + a3, present(r.url_scheme), 0, 5, 6);
    assert(request_labels(r) == a0 + present(o1) + present(o2) + a3 + present(r.url_scheme));
    let o6 = match resp.error_type {
        Some(e) => Some((ERROR_TYPE@, e)),
        None => None,
    };
    let o7 = match resp.status_code {
        Some(c) => Some(status_code_label(c)),
        None => None,
    };
    lemma_ranked_present(o6, 6);
    lemma_ranked_present(o7, 7);
    lemma_ranked_concat(present(o6), present(o7), 6, 7, 8);
    lemma_ranked_concat(request_labels(r), response_labels(resp), 0, 6, 8);
    lemma_distinct_ranks(measurement_of(r, outcome, duration_millis).labels);
}

/// The labels of a request take their values from closed sets: the method
/// label is a known method or `_OTHER`, the scheme label, when present, is
/// `http` or `https`, and the protocol version label is one of the five
/// HTTP versions.
pub proof fn lemma_request_label_values_bounded(head: RequestHead)
    ensures
        ({
            let v = request_metrics_of(head).method.1;
            is_known_method(v) || v == "_OTHER"@
        }),
        request_metrics_of(head).url_scheme matches Some(l) ==> (l.1 == "http"@ || l.1 == "https"@),
        ({
            let v = version_text(request_metrics_of(head).version);
            v == "0.9"@ || v == "1.0"@ || v == "1.1"@ || v == "2"@ || v == "3"@
        }),
{
}

/// A port that the URI names is the server port, whatever the scheme; the
/// default port of the scheme counts only when the URI names none, and
/// without a port or a scheme there is no server port.
pub proof fn lemma_explicit_port_wins(port: Option<u16>, scheme: Option<Seq<char>>, p: u16)
    ensures
        port == Some(p) ==> port_or_known_default_spec(port, scheme) == Some(p),
        port is None && scheme is None ==> port_or_known_default_spec(port, scheme) is None,
        port is None && scheme is Some ==> port_or_known_default_spec(port, scheme)
            == default_port_spec(scheme->0),
{
}

/// The default ports: 80 for `http` and `ws`, 443 for `https` and `wss`,
/// 21 for `ftp`, and none for any other scheme.
pub proof fn lemma_default_ports(s: Seq<char>)
    ensures
        s == "http"@ || s == "ws"@ ==> default_port_spec(s) == Some(80u16),
        s == "https"@ || s == "wss"@ ==> default_port_spec(s) == Some(443u16),
        s == "ftp"@ ==> default_port_spec(s) == Some(21u16),
        !(s == "http"@ || s == "ws"@ || s == "https"@ || s == "wss"@ || s == "ftp"@)
            ==> default_port_spec(s) is None,
{
    reveal_strlit("http");
    reveal_strlit("ws");
    reveal_strlit("https");
    reveal_strlit("wss");
    reveal_strlit("ftp");
    assert("http"@.len() == 4 && "ws"@.len() == 2 && "https"@.len() == 5);
    assert("wss"@.len() == 3 && "ftp"@.len() == 3 && "wss"@[0] == 'w' && "ftp"@[0] == 'f');
}

/// The methods that the semantic conventions name, `QUERY` among them.
pub open spec fn is_standard_method(m: Seq<char>) -> bool {
    m == "GET"@ || m == "HEAD"@ || m == "POST"@ || m == "PUT"@ || m == "DELETE"@
        || m == "CONNECT"@ || m == "OPTIONS"@ || m == "TRACE"@ || m == "PATCH"@ || m == "QUERY"@
}

/// What a request's metrics hold, in terms of its head: the body size is
/// the lower size hint whatever the method; the method label keeps a known
/// method and is `_OTHER` otherwise; the server address is the host; an
/// explicit port is the server port; the version is the request's; the
/// scheme label names `http` or `https` exactly when the scheme is one of
/// them.
pub proof fn lemma_request_metrics_of_head(head: RequestHead)
    ensures
        request_metrics_of(head).body_size == head.body_size_lower,
        request_metrics_of(head).method.0 == HTTP_REQUEST_METHOD@,
        is_standard_method(head.method@) ==> request_metrics_of(head).method.1 == head.method@,
        !is_standard_method(head.method@) ==> request_metrics_of(head).method.1 == "_OTHER"@,
        request_metrics_of(head).server_address == opt_text(head.host),
        head.port matches Some(p) ==> request_metrics_of(head).server_port == Some(p),
        head.port is None && head.scheme is Some ==> request_metrics_of(head).server_port
            == default_port_spec(head.scheme->0@),
        head.port is None && head.scheme is None ==> request_metrics_of(head).server_port is None,
        request_metrics_of(head).version == head.version,
        head.scheme is Some && (head.scheme->0@ == "http"@ || head.scheme->0@ == "https"@)
            ==> request_metrics_of(head).url_scheme == Some((URL_SCHEME@, head.scheme->0@)),
        head.scheme is Some && !(head.scheme->0@ == "http"@ || head.scheme->0@ == "https"@)
            ==> request_metrics_of(head).url_scheme is None,
        head.scheme is None ==> request_metrics_of(head).url_scheme is None,
{
}

/// The labels of a request begin with its method label, then its server
/// address when there is one, and end with the protocol name `http`, the
/// protocol version and the scheme label when there is one; the server port
/// label, when present, spells the port in decimal.
pub proof fn lemma_request_labels_shape(r: RequestMetricsView)
    ensures
        request_labels(r)[0] == r.method,
        r.server_address matches Some(a) ==> request_labels(r)[1] == (SERVER_ADDRESS@, a),
        ({
            let n = request_labels(r).len();
            let t = if r.url_scheme is Some { n - 1 } else { n as int };
            &&& request_labels(r)[t - 2] == (NETWORK_PROTOCOL_NAME@, "http"@)
            &&& request_labels(r)[t - 1] == (NETWORK_PROTOCOL_VERSION@, version_text(r.version))
            &&& r.url_scheme matches Some(l) ==> request_labels(r)[n - 1] == l
        }),
        r.server_port matches Some(p) ==> ({
            let i = if r.server_address is Some { 2int } else { 1int };
            &&& request_labels(r)[i].0 == SERVER_PORT@
            &&& parse_u64_spec(request_labels(r)[i].1) == Some(p as u64)
        }),
        r.server_address is None && r.server_port is None && r.url_scheme is None
            ==> request_labels(r).len() == 3,
{
    if let Some(p) = r.server_port {
        lemma_parse_decimal(p as nat);
    }
}

/// The protocol version labels: `0.9`, `1.0`, `1.1`, `2` and `3`.
pub proof fn lemma_version_texts()
    ensures
        version_text(HttpVersion::Http09) == "0.9"@,
        version_text(HttpVersion::Http10) == "1.0"@,
        version_text(HttpVersion::Http11) == "1.1"@,
        version_text(HttpVersion::Http2) == "2"@,
        version_text(HttpVersion::Http3) == "3"@,
{
}

/// A response keeps its own status code, carries no error, and is labelled
/// with one status-code label whose value parses back to that code; an
/// error has body size 0, no status code, and one `error.type` label whose
/// value is its message.
pub proof fn lemma_outcome_metrics(status: u16, header: Option<Vec<u8>>, message: String)
    ensures
        response_metrics_of(ResponseOutcome::Response { status, content_length: header }).status_code
            == Some(status),
        response_metrics_of(
            ResponseOutcome::Response { status, content_length: header },
        ).error_type is None,
        response_labels(
            response_metrics_of(ResponseOutcome::Response { status, content_length: header }),
        ).len() == 1,
        response_labels(
            response_metrics_of(ResponseOutcome::Response { status, content_length: header }),
        )[0].0 == HTTP_RESPONSE_STATUS_CODE@,
        parse_u64_spec(
            response_labels(
                response_metrics_of(ResponseOutcome::Response { status, content_length: header }),
            )[0].1,
        ) == Some(status as u64),
        response_metrics_of(ResponseOutcome::Error { message }).body_size == 0,
        response_metrics_of(ResponseOutcome::Error { message }).status_code is None,
        response_labels(response_metrics_of(ResponseOutcome::Error { message })) == seq![
            (ERROR_TYPE@, message@),
        ],
{
    lemma_parse_decimal(status as nat);
    let r = response_metrics_of(ResponseOutcome::Response { status, content_length: header });
    assert(response_labels(r) =~= seq![status_code_label(status)]);
    let e = response_metrics_of(ResponseOutcome::Error { message });
    assert(response_labels(e) =~= seq![(ERROR_TYPE@, message@)]);
}

/// The response body size is the number that the `Content-Length` header
/// spells, whatever its size: when the header is text that parses as `n`,
/// and in particular when its bytes are the decimal digits of `n`, the size
/// is `n`; without the header it is 0.
pub proof fn lemma_content_length_is_header_number(header: Option<Vec<u8>>, n: u64)
    ensures
        header is None ==> content_length_value(header) == 0,
        header is Some && header_text(header->0@) is Some && parse_u64_spec(
            header_text(header->0@)->0,
        ) == Some(n) ==> content_length_value(header) == n,
        header is Some && header->0@.map_values(|x: u8| x as char) == decimal(n as nat)
            ==> content_length_value(header) == n,
{
    if let Some(b) = header {
        if b@.map_values(|x: u8| x as char) == decimal(n as nat) {
            lemma_decimal_spells(n as nat);
            lemma_parse_decimal(n as nat);
            let d = decimal(n as nat);
            assert forall|i: int| 0 <= i < b@.len() implies is_visible_ascii_byte(#[trigger] b@[i]) by {
                assert(d[i] == b@[i] as char);
                assert(crate::text::is_digit(d[i]));
            }
        }
    }
}

/// A header value is text exactly when each byte is a tab or lies between
/// space and `~`; its characters are then its bytes, one for one.
pub proof fn lemma_header_text(bytes: Seq<u8>)
    ensures
        header_text(bytes) is Some <==> forall|i: int|
            0 <= i < bytes.len() ==> (32 <= #[trigger] bytes[i] <= 126 || bytes[i] == 9),
        header_text(bytes) is Some ==> header_text(bytes)->0.len() == bytes.len(),
        header_text(bytes) is Some ==> forall|i: int|
            0 <= i < bytes.len() ==> #[trigger] header_text(bytes)->0[i] as int == bytes[i] as int,
{
    if forall|i: int| 0 <= i < bytes.len() ==> (32 <= #[trigger] bytes[i] <= 126 || bytes[i] == 9) {
        assert forall|i: int| 0 <= i < bytes.len() implies is_visible_ascii_byte(#[trigger] bytes[i]) by {
            assert(32 <= bytes[i] <= 126 || bytes[i] == 9);
        }
    } else {
        let i = choose|i: int| 0 <= i < bytes.len() && !(32 <= #[trigger] bytes[i] <= 126 || bytes[i] == 9);
        assert(!is_visible_ascii_byte(bytes[i]));
    }
}

/// The visible-ASCII test on header bytes.
spec fn is_visible_ascii_byte(b: u8) -> bool {
    crate::response_metrics::is_visible_ascii(b)
}

/// A measurement takes its duration as given, its request body size from
/// the request whatever the outcome, its response body size from the
/// outcome (0 for an error), and lists the request labels before the
/// response labels.
pub proof fn lemma_measurement_parts(
    r: RequestMetricsView,
    outcome: ResponseOutcome,
    other: ResponseOutcome,
    duration_millis: u128,
)
    ensures
        measurement_of(r, outcome, duration_millis).request_body_size == r.body_size,
        measurement_of(r, outcome, duration_millis).request_body_size == measurement_of(
            r,
            other,
            duration_millis,
        ).request_body_size,
        measurement_of(r, outcome, duration_millis).duration_millis == duration_millis,
        measurement_of(r, outcome, duration_millis).response_body_size == response_metrics_of(
            outcome,
        ).body_size,
        outcome is Error ==> measurement_of(r, outcome, duration_millis).response_body_size == 0,
        measurement_of(r, outcome, duration_millis).labels.take(request_labels(r).len() as int)
            == request_labels(r),
        measurement_of(r, outcome, duration_millis).labels.skip(request_labels(r).len() as int)
            == response_labels(response_metrics_of(outcome)),
{
    let l = measurement_of(r, outcome, duration_millis).labels;
    assert(l.take(request_labels(r).len() as int) =~= request_labels(r));
    assert(l.skip(request_labels(r).len() as int) =~= response_labels(response_metrics_of(outcome)));
}

} // verus!
