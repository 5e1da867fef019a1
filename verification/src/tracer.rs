//! The tracer: destination endpoints, static headers and resource identity,
//! validated once at construction.  Uploading itself is a transport concern;
//! this module builds everything the transport needs — the request header
//! list and the export documents — and interprets what the collector
//! answered.

use vstd::prelude::*;

use crate::errors::TracerError;
use crate::span_builder::SpanBuilder;
use crate::strutil::dec_str;
use crate::strutil::find_ch;
use crate::strutil::find_char;
use crate::strutil::lemma_find_ch;
use crate::strutil::spec_trim;
use crate::strutil::trim_str;
use crate::strutil::u64_to_dec;

verus! {

/// A list of owned header pairs reduced to its mathematical content.
pub open spec fn header_pairs_model(ps: Seq<(String, String)>) -> Seq<(Seq<char>, Seq<char>)> {
    Seq::new(ps.len(), |i: int| (ps[i].0@, ps[i].1@))
}

/// What one comma-separated header segment contributes: nothing without an
/// `=`; otherwise the trimmed key before the first `=` with the trimmed
/// remainder — later `=` characters included — as its value.
pub open spec fn spec_header_segment(seg: Seq<char>) -> Seq<(Seq<char>, Seq<char>)> {
    let e = find_ch(seg, '=');
    if e == seg.len() {
        Seq::empty()
    } else {
        seq![(spec_trim(seg.take(e)), spec_trim(seg.skip(e + 1)))]
    }
}

/// The header pairs read from the comma-separated segments of a non-empty
/// string, in order.
pub open spec fn spec_split_headers(s: Seq<char>) -> Seq<(Seq<char>, Seq<char>)>
    decreases s.len(),
    via spec_split_headers_decreases
{
    let k = find_ch(s, ',');
    let first = spec_header_segment(s.take(k));
    if k == s.len() {
        first
    } else {
        first + spec_split_headers(s.skip(k + 1))
    }
}

#[via_fn]
proof fn spec_split_headers_decreases(s: Seq<char>) {
    lemma_find_ch(s, ',');
}

/// The static header set read from a `key=value,...` string: nothing from
/// an empty string, else its segments' contributions in order.
pub open spec fn spec_parse_headers(s: Seq<char>) -> Seq<(Seq<char>, Seq<char>)> {
    if s.len() == 0 {
        Seq::empty()
    } else {
        spec_split_headers(s)
    }
}

fn parse_header_segment(seg: &str) -> (r: Option<(String, String)>)
    ensures
        match r {
            Some(p) => spec_header_segment(seg@) == seq![(p.0@, p.1@)],
            None => spec_header_segment(seg@) == Seq::<(Seq<char>, Seq<char>)>::empty(),
        },
{
    proof {
        lemma_find_ch(seg@, '=');
    }
    let n = seg.unicode_len();
    let e = find_char(seg, '=');
    if e == n {
        None
    } else {
        let key = seg.substring_char(0, e);
        let value = seg.substring_char(e + 1, n);
        proof {
            assert(key@ =~= seg@.take(e as int));
            assert(value@ =~= seg@.skip(e as int + 1));
        }
        Some((trim_str(key), trim_str(value)))
    }
}

/// Reads the comma-separated `key=value` pairs of a static header string,
/// trimming each key and value; an empty string yields none.
pub fn parse_header_string(s: &str) -> (r: Vec<(String, String)>)
    ensures
        header_pairs_model(r@) == spec_parse_headers(s@),
{
    if s.unicode_len() == 0 {
        let r: Vec<(String, String)> = Vec::new();
        proof {
            assert(header_pairs_model(r@) =~= spec_parse_headers(s@));
        }
        r
    } else {
        parse_header_string_tail(s)
    }
}

fn parse_header_string_tail(s: &str) -> (r: Vec<(String, String)>)
    ensures
        header_pairs_model(r@) == spec_split_headers(s@),
    decreases s@.len(),
{
    proof {
        lemma_find_ch(s@, ',');
    }
    let n = s.unicode_len();
    let k = find_char(s, ',');
    let seg = s.substring_char(0, k);
    proof {
        assert(seg@ =~= s@.take(k as int));
    }
    let first = parse_header_segment(seg);
    let mut out: Vec<(String, String)> = Vec::new();
    match first {
        Some(p) => out.push(p),
        None => (),
    }
    if k < n {
        let tail = s.substring_char(k + 1, n);
        proof {
            assert(tail@ =~= s@.skip(k as int + 1));
        }
        let mut rest = parse_header_string_tail(tail);
        out.append(&mut rest);
        proof {
            assert(header_pairs_model(out@) =~= spec_split_headers(s@));
        }
    } else {
        proof {
            assert(header_pairs_model(out@) =~= spec_split_headers(s@));
        }
    }
    out
}

/// The full header list of one upload request: content type, the body
/// length in decimal, the destination host, then the static headers.
pub open spec fn spec_request_headers(
    host: Seq<char>,
    body_len: nat,
    statics: Seq<char>,
) -> Seq<(Seq<char>, Seq<char>)> {
    seq![
        ("Content-Type"@, "application/json"@),
        ("Content-Length"@, dec_str(body_len)),
        ("Host"@, host),
    ] + spec_parse_headers(statics)
}

/// Whether a string parses as a URI; decided by the parser named on the
/// trusted item below, as a function of the string alone.
pub uninterp spec fn uri_ok(s: Seq<char>) -> bool;

/// The host subcomponent of a URI string, empty where the URI has none; a
/// function of the string alone.
pub uninterp spec fn uri_host_of(s: Seq<char>) -> Seq<char>;

/// Relies on http::Uri's FromStr impl: whether parsing succeeds depends on
/// the characters alone.
#[verifier::external_body]
fn uri_is_valid(s: &str) -> (r: bool)
    ensures
        r == uri_ok(s@),
{
    s.parse::<http::Uri>().is_ok()
}

/// Relies on http::Uri::host: the host subcomponent of the parsed URI, or
/// empty where the URI has none; a function of the string alone.
#[verifier::external_body]
fn uri_host(s: &str) -> (r: String)
    requires
        uri_ok(s@),
    ensures
        r@ == uri_host_of(s@),
{
    match s.parse::<http::Uri>() {
        Ok(u) => match u.host() {
            Some(h) => h.to_owned(),
            None => String::new(),
        },
        Err(_) => String::new(),
    }
}

/// Destination endpoints, static headers and the service identity attached
/// to every export.
#[derive(Debug)]
pub struct OtlpTracer {
    pub traces_endpoint: String,
    pub metrics_endpoint: String,
    pub traces_host: String,
    pub metrics_host: String,
    pub service_name: String,
    pub headers: String,
}

impl Clone for OtlpTracer {
    fn clone(&self) -> (r: Self)
        ensures
            r == *self,
    {
        OtlpTracer {
            traces_endpoint: self.traces_endpoint.clone(),
            metrics_endpoint: self.metrics_endpoint.clone(),
            traces_host: self.traces_host.clone(),
            metrics_host: self.metrics_host.clone(),
            service_name: self.service_name.clone(),
            headers: self.headers.clone(),
        }
    }
}

impl OtlpTracer {
    /// Both endpoints parsed as URIs and the stored hosts are theirs.
    pub open spec fn wf(&self) -> bool {
        &&& uri_ok(self.traces_endpoint@)
        &&& uri_ok(self.metrics_endpoint@)
        &&& self.traces_host@ == uri_host_of(self.traces_endpoint@)
        &&& self.metrics_host@ == uri_host_of(self.metrics_endpoint@)
    }

    /// Validates both endpoints and builds the tracer, before any network
    /// activity.  Fails with a configuration error naming the first
    /// endpoint that does not parse; succeeds exactly when both parse.
    pub fn new(traces_endpoint: &str, metrics_endpoint: &str, service_name: &str) -> (r: Result<
        OtlpTracer,
        TracerError,
    >)
        ensures
            r is Ok <==> (uri_ok(traces_endpoint@) && uri_ok(metrics_endpoint@)),
            r matches Ok(t) ==> t.wf() && t.traces_endpoint@ == traces_endpoint@
                && t.metrics_endpoint@ == metrics_endpoint@ && t.service_name@ == service_name@
                && t.headers@ == Seq::<char>::empty(),
            r matches Err(e) ==> (e matches TracerError::ConfigError { message } && message@ == (
            if !uri_ok(traces_endpoint@) {
                traces_endpoint@
            } else {
                metrics_endpoint@
            })),
    {
        if !uri_is_valid(traces_endpoint) {
            return Err(TracerError::ConfigError { message: traces_endpoint.to_owned() });
        }
        if !uri_is_valid(metrics_endpoint) {
            return Err(TracerError::ConfigError { message: metrics_endpoint.to_owned() });
        }
        let traces_host = uri_host(traces_endpoint);
        let metrics_host = uri_host(metrics_endpoint);
        Ok(
            OtlpTracer {
                traces_endpoint: traces_endpoint.to_owned(),
                metrics_endpoint: metrics_endpoint.to_owned(),
                traces_host,
                metrics_host,
                service_name: service_name.to_owned(),
                headers: String::new(),
            },
        )
    }

    /// Replaces the static header set, given as a comma-separated
    /// `key=value` string consumed once here.
    pub fn with_headers(self, headers: &str) -> (r: OtlpTracer)
        ensures
            r == (OtlpTracer { headers: r.headers, ..self }),
            r.headers@ == headers@,
    {
        OtlpTracer { headers: headers.to_owned(), ..self }
    }

    /// Opens a builder for a span with the given name.
    pub fn span(&self, name: &str) -> (r: SpanBuilder)
        ensures
            r.wf(),
            r.name@ == name@,
            r.attributes@ == Map::<Seq<char>, Seq<char>>::empty(),
            r.kind == crate::otlp::SpanKind::Internal,
            r.status.message@ == Seq::<char>::empty(),
            r.status.code == crate::otlp::spec_status_code(crate::otlp::StatusCode::Unset),
    {
        SpanBuilder::new(name)
    }

    /// The header list for one upload request to the traces or the metrics
    /// endpoint: content type, the body length in decimal, the endpoint's
    /// host and the parsed static headers, in order.
    pub fn request_headers(&self, metrics: bool, body_len: usize) -> (r: Vec<(String, String)>)
        requires
            self.wf(),
        ensures
            header_pairs_model(r@) == spec_request_headers(
                if metrics {
                    uri_host_of(self.metrics_endpoint@)
                } else {
                    uri_host_of(self.traces_endpoint@)
                },
                body_len as nat,
                self.headers@,
            ),
    {
        let mut out: Vec<(String, String)> = Vec::new();
        let host = if metrics {
            self.metrics_host.clone()
        } else {
            self.traces_host.clone()
        };
        out.push(("Content-Type".to_owned(), "application/json".to_owned()));
        out.push(("Content-Length".to_owned(), u64_to_dec(body_len as u64)));
        out.push(("Host".to_owned(), host));
        let mut statics = parse_header_string(self.headers.as_str());
        out.append(&mut statics);
        proof {
            assert(header_pairs_model(out@) =~= spec_request_headers(
                if metrics {
                    uri_host_of(self.metrics_endpoint@)
                } else {
                    uri_host_of(self.traces_endpoint@)
                },
                body_len as nat,
                self.headers@,
            ));
        }
        out
    }

    /// Says for each upload outcome what the caller receives: success is
    /// owed exactly on an HTTP 200 answer, a transport failure carries its
    /// description, and any other status becomes a protocol error carrying
    /// the status and the response body.
    pub open spec fn spec_upload_result(
        outcome: Result<(u16, String), String>,
        r: Result<(), TracerError>,
    ) -> bool {
        match outcome {
            Ok((status, body)) => if status == 200 {
                r is Ok
            } else {
                r matches Err(TracerError::ProtocolError { status: s, body: b }) && s == status
                    && b@ == body@
            },
            Err(m) => r matches Err(TracerError::TransportError { message }) && message@ == m@,
        }
    }

    /// Turns a transport outcome — either a status line with its body or a
    /// transport failure description — into the caller's result.  Mutates
    /// nothing.
    pub fn interpret_response(outcome: Result<(u16, String), String>) -> (r: Result<
        (),
        TracerError,
    >)
        ensures
            Self::spec_upload_result(outcome, r),
            r is Ok <==> (outcome matches Ok((status, _)) && status == 200),
    {
        match outcome {
            Ok((status, body)) => {
                if status == 200 {
                    Ok(())
                } else {
                    Err(TracerError::ProtocolError { status, body })
                }
            },
            Err(message) => Err(TracerError::TransportError { message }),
        }
    }
}

} // verus!
