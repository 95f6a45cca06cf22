use griffin::codec::{frame_message, make_trailers_frame};
use griffin::forward::{begin, forward_uri, route, Action, Event, Phase, Plan, RequestHead, Route};
use griffin::frames::{relay_frame, BodyMode, Frame};
use griffin::headers::HeaderList;
use griffin::listener::{Acceptor, ConfigError, ListenerAction, ListenerEvent, ProxyConfig};

fn head(path: &str, content_type: Option<&[u8]>) -> RequestHead {
    let mut headers = HeaderList::new();
    headers.append(b"host", b"proxy:8080");
    if let Some(ct) = content_type {
        headers.append(b"content-type", ct);
    }
    headers.append(b"content-length", b"10");
    RequestHead { path: path.to_string(), headers }
}

fn forward_plan(p: Plan) -> (griffin::forward::Exchange, griffin::forward::OutboundHead) {
    match p {
        Plan::Forward(x, out) => (x, out),
        Plan::ServeMetrics => panic!("expected a forward"),
    }
}

#[test]
fn routes_by_content_type_and_path() {
    assert_eq!(route(&head("/metrics", Some(b"application/grpc"))), Route::Metrics);
    assert_eq!(route(&head("/a.B/C", Some(b"application/grpc"))), Route::Grpc);
    assert_eq!(route(&head("/a.B/C", Some(b"application/grpc-web+proto"))), Route::GrpcWeb);
    assert_eq!(route(&head("/a.B/C", Some(b"application/grpc+proto"))), Route::GrpcWeb);
    assert_eq!(route(&head("/a.B/C", None)), Route::GrpcWeb);
}

#[test]
fn metrics_path_is_served_locally() {
    assert!(matches!(begin(head("/metrics", None), "backend:3000"), Plan::ServeMetrics));
}

#[test]
fn grpc_web_request_is_rewritten() {
    let (x, out) = forward_plan(begin(head("/helloworld.Greeter/SayHello", Some(b"application/grpc-web+proto")), "localhost:3000"));
    assert_eq!(x.route, Route::GrpcWeb);
    assert_eq!(x.phase, Phase::Connecting);
    assert_eq!(out.uri, "http://localhost:3000/helloworld.Greeter/SayHello");
    assert_eq!(out.headers.get(b"content-type").unwrap().as_slice(), b"application/grpc");
    assert!(out.headers.get(b"content-length").is_none());
    assert_eq!(out.headers.get(b"host").unwrap().as_slice(), b"localhost:3000");
}

#[test]
fn grpc_request_keeps_its_headers() {
    let (x, out) = forward_plan(begin(head("/a.B/C?x=1", Some(b"application/grpc")), "localhost:3000"));
    assert_eq!(x.route, Route::Grpc);
    assert_eq!(out.uri, "http://localhost:3000/a.B/C?x=1");
    assert_eq!(out.headers.get(b"content-type").unwrap().as_slice(), b"application/grpc");
    assert_eq!(out.headers.get(b"content-length").unwrap().as_slice(), b"10");
    assert_eq!(out.headers.get(b"host").unwrap().as_slice(), b"localhost:3000");
}

#[test]
fn forward_uri_joins_parts() {
    assert_eq!(forward_uri("h:1", "/p"), "http://h:1/p");
}

#[test]
fn exchange_success_counts_once() {
    let (mut x, _) = forward_plan(begin(head("/s", None), "b:1"));
    let s = x.on_event(Event::Connected);
    assert!(matches!(s.action, Action::Send));
    assert!(!s.record);
    let mut h = HeaderList::new();
    h.append(b"content-type", b"application/grpc");
    h.append(b"grpc-accept-encoding", b"gzip");
    let s = x.on_event(Event::Responded(h));
    assert!(s.record);
    assert_eq!(x.phase, Phase::Done);
    match s.action {
        Action::Reply(h) => {
            assert_eq!(h.get(b"content-type").unwrap().as_slice(), b"application/grpc-web+proto");
            assert_eq!(h.get(b"grpc-accept-encoding").unwrap().as_slice(), b"gzip");
        }
        _ => panic!("expected a reply"),
    }
    let (m, p) = x.metric_labels();
    assert_eq!(m, "POST");
    assert_eq!(p, "/s");
    assert_eq!(x.body_mode(), BodyMode::GrpcWeb);
}

#[test]
fn exchange_failures_count() {
    let (mut x, _) = forward_plan(begin(head("/s", Some(b"application/grpc")), "b:1"));
    let s = x.on_event(Event::ConnectFailed);
    assert!(s.record);
    assert!(matches!(s.action, Action::Fail));
    let (mut y, _) = forward_plan(begin(head("/s", Some(b"application/grpc")), "b:1"));
    y.on_event(Event::Connected);
    let s = y.on_event(Event::SendFailed);
    assert!(s.record && matches!(s.action, Action::Fail));
    assert_eq!(y.body_mode(), BodyMode::Passthrough);
}

#[test]
fn grpc_reply_headers_untouched() {
    let (mut x, _) = forward_plan(begin(head("/s", Some(b"application/grpc")), "b:1"));
    x.on_event(Event::Connected);
    let mut h = HeaderList::new();
    h.append(b"content-type", b"application/grpc");
    match x.on_event(Event::Responded(h)).action {
        Action::Reply(h) => assert_eq!(h.get(b"content-type").unwrap().as_slice(), b"application/grpc"),
        _ => panic!("expected a reply"),
    }
}

fn trailers() -> HeaderList {
    let mut t = HeaderList::new();
    t.append(b"grpc-status", b"0");
    t
}

fn data(f: Option<Frame>) -> Vec<u8> {
    match f {
        Some(Frame::Data(d)) => d,
        _ => panic!("expected a data frame"),
    }
}

#[test]
fn grpc_web_body_two_chunks_then_trailers() {
    let a = frame_message(b"first ok").unwrap();
    let b = frame_message(b"second ok").unwrap();
    let body = vec![Frame::Data(a.clone()), Frame::Data(b.clone()), Frame::Trailers(trailers())];
    let out: Vec<Vec<u8>> = body.into_iter().map(|f| data(relay_frame(BodyMode::GrpcWeb, f))).collect();
    assert_eq!(out.len(), 3);
    assert_eq!(out[0], a);
    assert_eq!(out[1], b);
    assert_eq!(out[2], make_trailers_frame(&trailers()).unwrap());
}

#[test]
fn passthrough_body_keeps_trailers() {
    match relay_frame(BodyMode::Passthrough, Frame::Trailers(trailers())) {
        Some(Frame::Trailers(t)) => assert_eq!(t.get(b"grpc-status").unwrap().as_slice(), b"0"),
        _ => panic!("expected trailers"),
    }
    assert_eq!(data(relay_frame(BodyMode::Passthrough, Frame::Data(vec![1, 2, 3]))), vec![1, 2, 3]);
}

#[test]
fn config_parses_authority() {
    let c = ProxyConfig::new("127.0.0.1:3000").ok().unwrap();
    assert_eq!(c.authority, "127.0.0.1:3000");
    assert!(matches!(ProxyConfig::new(""), Err(ConfigError::InvalidAuthority)));
    assert!(matches!(ProxyConfig::new("bad host:3000"), Err(ConfigError::InvalidAuthority)));
}

#[test]
fn listener_stops_on_shutdown() {
    let mut l = Acceptor::new();
    assert_eq!(l.on_event(ListenerEvent::Accepted), ListenerAction::Serve);
    assert_eq!(l.on_event(ListenerEvent::AcceptFailed), ListenerAction::LogAcceptError);
    assert_eq!(l.on_event(ListenerEvent::Shutdown(false)), ListenerAction::Wait);
    assert_eq!(l.on_event(ListenerEvent::Accepted), ListenerAction::Serve);
    assert_eq!(l.on_event(ListenerEvent::Shutdown(true)), ListenerAction::Stop);
    assert_eq!(l.on_event(ListenerEvent::Accepted), ListenerAction::Stop);
    assert!(l.stopped);
}
