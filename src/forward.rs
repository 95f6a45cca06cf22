use vstd::prelude::*;
use vstd::string::*;
use vstd::utf8::encode_utf8;
use crate::frames::BodyMode;
use crate::headers::{first_value, lemma_with_value_first, with_value, without, HeaderList, HeaderSeq};

verus! {

/// The path served from the proxy's own metrics instead of the backend.
pub open spec fn metrics_path() -> Seq<char> {
    "/metrics"@
}

/// Header names, as http keeps them: lower case.
pub open spec fn content_type_name() -> Seq<u8> {
    "content-type".spec_bytes()
}

pub open spec fn content_length_name() -> Seq<u8> {
    "content-length".spec_bytes()
}

pub open spec fn host_name() -> Seq<u8> {
    "host".spec_bytes()
}

/// The content type of native gRPC.
pub open spec fn grpc_content_type() -> Seq<u8> {
    "application/grpc".spec_bytes()
}

/// The content type of a gRPC-Web response.
pub open spec fn grpc_web_content_type() -> Seq<u8> {
    "application/grpc-web+proto".spec_bytes()
}

/// The method label under which forwarded requests are counted.
pub open spec fn counted_method() -> Seq<char> {
    "POST"@
}

/// Where an inbound request goes.
#[derive(PartialEq, Eq, Structural, Clone, Copy, Debug)]
pub enum Route {
    /// The reserved metrics path, answered by the proxy itself.
    Metrics,
    /// Native gRPC, forwarded as it is.
    Grpc,
    /// Anything else, translated between gRPC-Web and gRPC.
    GrpcWeb,
}

/// The route of a request with path `path` and headers `headers`: the path
/// alone decides for the metrics path, then the first `content-type` alone.
pub open spec fn route_of(path: Seq<char>, headers: HeaderSeq) -> Route {
    if path == metrics_path() {
        Route::Metrics
    } else if first_value(headers, content_type_name()) == Some(grpc_content_type()) {
        Route::Grpc
    } else {
        Route::GrpcWeb
    }
}

/// The URI a request with path `path` is sent to: scheme and authority are the
/// backend's, the path (with any query) is the request's.
pub open spec fn target_uri(authority: Seq<char>, path: Seq<char>) -> Seq<char> {
    "http://"@ + authority + path
}

/// The headers sent to the backend: `host` names the backend; on the gRPC-Web
/// route `content-type` becomes `application/grpc` and `content-length` goes.
pub open spec fn outbound_headers(route: Route, headers: HeaderSeq, authority: Seq<char>) -> HeaderSeq {
    let with_host = with_value(headers, host_name(), encode_utf8(authority));
    if route == Route::GrpcWeb {
        without(with_value(with_host, content_type_name(), grpc_content_type()), content_length_name())
    } else {
        with_host
    }
}

/// The headers returned to the client: on the gRPC-Web route `content-type`
/// becomes `application/grpc-web+proto`; all else is the backend's.
pub open spec fn reply_headers(route: Route, headers: HeaderSeq) -> HeaderSeq {
    if route == Route::GrpcWeb {
        with_value(headers, content_type_name(), grpc_web_content_type())
    } else {
        headers
    }
}

/// The method, path and headers of an inbound request.
pub struct RequestHead {
    pub path: String,
    pub headers: HeaderList,
}

/// The target and headers of the request sent to the backend.
pub struct OutboundHead {
    pub uri: String,
    pub headers: HeaderList,
}

/// The route of `head`.
pub fn route(head: &RequestHead) -> (r: Route)
    ensures
        r == route_of(head.path@, head.headers@),
{
    let metrics = "/metrics".to_owned();
    if head.path == metrics {
        return Route::Metrics;
    }
    match head.headers.get("content-type".as_bytes()) {
        Some(v) => {
            if crate::bytes_util::bytes_eq(v.as_slice(), "application/grpc".as_bytes()) {
                Route::Grpc
            } else {
                Route::GrpcWeb
            }
        },
        None => Route::GrpcWeb,
    }
}

/// `http://`, the backend authority, then the request path.
pub fn forward_uri(authority: &str, path: &str) -> (r: String)
    ensures
        r@ == target_uri(authority@, path@),
{
    let mut uri = "http://".to_owned();
    uri.append(authority);
    uri.append(path);
    uri
}

/// Rewrites the headers of a request on `route` for the backend at `authority`.
pub fn rewrite_outbound(route: Route, headers: &mut HeaderList, authority: &str)
    ensures
        final(headers)@ == outbound_headers(route, old(headers)@, authority@),
{
    headers.insert("host".as_bytes(), authority.as_bytes());
    if route == Route::GrpcWeb {
        headers.insert("content-type".as_bytes(), "application/grpc".as_bytes());
        headers.remove("content-length".as_bytes());
    }
}

/// Rewrites the headers of the backend's response on `route` for the client.
pub fn rewrite_reply(route: Route, headers: &mut HeaderList)
    ensures
        final(headers)@ == reply_headers(route, old(headers)@),
{
    if route == Route::GrpcWeb {
        headers.insert("content-type".as_bytes(), "application/grpc-web+proto".as_bytes());
    }
}

/// How the backend's response body goes back on `route`.
pub fn body_mode(route: Route) -> (r: BodyMode)
    ensures
        r == BodyMode::GrpcWeb <==> route == Route::GrpcWeb,
{
    if route == Route::GrpcWeb {
        BodyMode::GrpcWeb
    } else {
        BodyMode::Passthrough
    }
}

/// Where one forwarded exchange stands.
#[derive(PartialEq, Eq, Structural, Clone, Copy, Debug)]
pub enum Phase {
    /// Dialing the backend.
    Connecting,
    /// The request is on its way; waiting for the response head.
    Sending,
    /// Answered or failed; counted in the metrics.
    Done,
}

/// One request being forwarded to the backend.
pub struct Exchange {
    pub route: Route,
    pub path: String,
    pub phase: Phase,
}

/// What the outside world reports to an exchange.
pub enum Event {
    /// The connection to the backend is up.
    Connected,
    /// Dialing or the handshake failed.
    ConnectFailed,
    /// The backend answered, with these response headers.
    Responded(HeaderList),
    /// Sending the request or reading the response head failed.
    SendFailed,
}

/// What the exchange asks for next.
pub enum Action {
    /// Send the outbound request on the new connection.
    Send,
    /// Return the response to the client, with these headers.
    Reply(HeaderList),
    /// Return the error to the client.
    Fail,
}

/// An action, and whether the request is to be counted and timed now.
pub struct Step {
    pub action: Action,
    pub record: bool,
}

/// The first decision on an inbound request.
pub enum Plan {
    /// Answer with the rendered metrics; nothing is counted.
    ServeMetrics,
    /// Dial the backend and send it this head.
    Forward(Exchange, OutboundHead),
}

/// Decides what to do with an inbound request for the backend at `authority`.
pub fn begin(head: RequestHead, authority: &str) -> (r: Plan)
    ensures
        r is ServeMetrics <==> route_of(head.path@, head.headers@) == Route::Metrics,
        r matches Plan::Forward(x, out) ==> {
            &&& x.route == route_of(head.path@, head.headers@)
            &&& x.path@ == head.path@
            &&& x.phase == Phase::Connecting
            &&& out.uri@ == target_uri(authority@, head.path@)
            &&& out.headers@ == outbound_headers(x.route, head.headers@, authority@)
        },
{
    let r = route(&head);
    if r == Route::Metrics {
        return Plan::ServeMetrics;
    }
    let RequestHead { path, mut headers } = head;
    let uri = forward_uri(authority, path.as_str());
    rewrite_outbound(r, &mut headers, authority);
    Plan::Forward(Exchange { route: r, path, phase: Phase::Connecting }, OutboundHead { uri, headers })
}

impl Exchange {
    /// Takes in what happened and says what to do next. The step that ends the
    /// exchange, on success or on failure, is the one that asks to count and
    /// time it; no other does.
    pub fn on_event(&mut self, event: Event) -> (r: Step)
        requires
            old(self).phase != Phase::Done,
        ensures
            final(self).route == old(self).route,
            final(self).path@ == old(self).path@,
            r.record == (final(self).phase == Phase::Done),
            match event {
                Event::Connected => if old(self).phase == Phase::Connecting {
                    final(self).phase == Phase::Sending && r.action is Send
                } else {
                    final(self).phase == Phase::Done && r.action is Fail
                },
                Event::Responded(h) => if old(self).phase == Phase::Sending {
                    &&& final(self).phase == Phase::Done
                    &&& r.action matches Action::Reply(o) && o@ == reply_headers(old(self).route, h@)
                } else {
                    final(self).phase == Phase::Done && r.action is Fail
                },
                _ => final(self).phase == Phase::Done && r.action is Fail,
            },
    {
        match event {
            Event::Connected => {
                if self.phase == Phase::Connecting {
                    self.phase = Phase::Sending;
                    Step { action: Action::Send, record: false }
                } else {
                    self.phase = Phase::Done;
                    Step { action: Action::Fail, record: true }
                }
            },
            Event::Responded(h) => {
                if self.phase == Phase::Sending {
                    self.phase = Phase::Done;
                    let mut h = h;
                    rewrite_reply(self.route, &mut h);
                    Step { action: Action::Reply(h), record: true }
                } else {
                    self.phase = Phase::Done;
                    Step { action: Action::Fail, record: true }
                }
            },
            _ => {
                self.phase = Phase::Done;
                Step { action: Action::Fail, record: true }
            },
        }
    }

    /// The labels the exchange is counted under: the method label and the path.
    pub fn metric_labels(&self) -> (r: (String, String))
        ensures
            r.0@ == counted_method(),
            r.1@ == self.path@,
    {
        ("POST".to_owned(), self.path.clone())
    }

    /// How the response body goes back to the client.
    pub fn body_mode(&self) -> (r: BodyMode)
        ensures
            r == BodyMode::GrpcWeb <==> self.route == Route::GrpcWeb,
    {
        body_mode(self.route)
    }
}

proof fn lemma_header_names_differ()
    ensures
        content_type_name() != content_length_name(),
{
    reveal_strlit("content-type");
    reveal_strlit("content-length");
    assert(is_ascii("content-type"));
    assert(is_ascii("content-length"));
    broadcast use vstd::string::is_ascii_spec_bytes;
    assert(content_type_name().len() != content_length_name().len());
}

/// A request that is not native gRPC (and not for the metrics path) goes to
/// the backend with `content-type: application/grpc` and no `content-length`.
pub proof fn lemma_grpc_web_outbound(path: Seq<char>, headers: HeaderSeq, authority: Seq<char>)
    requires
        route_of(path, headers) == Route::GrpcWeb,
    ensures
        first_value(outbound_headers(Route::GrpcWeb, headers, authority), content_type_name())
            == Some(grpc_content_type()),
        first_value(outbound_headers(Route::GrpcWeb, headers, authority), content_length_name()) is None,
{
    let with_host = with_value(headers, host_name(), encode_utf8(authority));
    let typed = with_value(with_host, content_type_name(), grpc_content_type());
    lemma_header_names_differ();
    lemma_with_value_first(with_host, content_type_name(), grpc_content_type());
    crate::headers::lemma_without_keeps_other(typed, content_length_name(), content_type_name());
    crate::headers::lemma_without_has_none(typed, content_length_name());
}

} // verus!
