use griffin::codec::{encode_trailers, frame_message, make_trailers_frame, split_frames};
use griffin::headers::HeaderList;

fn status_ok() -> HeaderList {
    let mut t = HeaderList::new();
    t.append(b"grpc-status", b"0");
    t
}

#[test]
fn trailers_frame_reads_back() {
    let frame = make_trailers_frame(&status_ok()).unwrap();
    assert_eq!(frame[0], 0x80);
    let len = u32::from_be_bytes([frame[1], frame[2], frame[3], frame[4]]) as usize;
    assert_eq!(len, frame.len() - 5);
    assert_eq!(&frame[5..5 + len], b"grpc-status:0\r\n");
}

#[test]
fn trailers_frame_exact_bytes() {
    let frame = make_trailers_frame(&status_ok()).unwrap();
    let mut expected = vec![0x80, 0, 0, 0, 15];
    expected.extend_from_slice(b"grpc-status:0\r\n");
    assert_eq!(frame, expected);
}

#[test]
fn encode_trailers_keeps_order_and_duplicates() {
    let mut t = HeaderList::new();
    t.append(b"grpc-status", b"13");
    t.append(b"x-a", b" spaced ");
    t.append(b"x-a", b"2");
    assert_eq!(
        encode_trailers(&t),
        b"grpc-status:13\r\nx-a: spaced \r\nx-a:2\r\n".to_vec()
    );
}

#[test]
fn encode_no_trailers_is_empty() {
    assert!(encode_trailers(&HeaderList::new()).is_empty());
    assert_eq!(make_trailers_frame(&HeaderList::new()).unwrap(), vec![0x80, 0, 0, 0, 0]);
}

#[test]
fn message_frame_layout() {
    let payload: Vec<u8> = (0..300u32).map(|i| (i % 251) as u8).collect();
    let f = frame_message(&payload).unwrap();
    assert_eq!(&f[..5], &[0, 0, 0, 1, 44]);
    assert_eq!(&f[5..], payload.as_slice());
}

#[test]
fn split_frames_round_trip() {
    let mut buf = frame_message(b"first ok").unwrap();
    buf.extend(frame_message(b"second ok").unwrap());
    buf.extend(make_trailers_frame(&status_ok()).unwrap());
    buf.extend_from_slice(&[0, 0, 0, 0, 9, 1, 2]);
    let (frames, used) = split_frames(&buf);
    assert_eq!(frames.len(), 3);
    assert_eq!(frames[0].flag, 0);
    assert_eq!(frames[0].payload, b"first ok".to_vec());
    assert_eq!(frames[1].payload, b"second ok".to_vec());
    assert_eq!(frames[2].flag, 0x80);
    assert_eq!(frames[2].payload, b"grpc-status:0\r\n".to_vec());
    assert_eq!(used, buf.len() - 7);
}

#[test]
fn split_frames_short_header() {
    let (frames, used) = split_frames(&[0, 0, 0]);
    assert!(frames.is_empty());
    assert_eq!(used, 0);
}

#[test]
fn unary_request_and_reply_frames() {
    // HelloRequest { name: "Alice" } and HelloReply { message: "Hello Alice!" } in protobuf
    let mut request = vec![0x0a, 5];
    request.extend_from_slice(b"Alice");
    let mut reply = vec![0x0a, 12];
    reply.extend_from_slice(b"Hello Alice!");

    let framed = frame_message(&request).unwrap();
    assert_eq!(&framed[..5], &[0, 0, 0, 0, 7]);

    let mut body = frame_message(&reply).unwrap();
    body.extend(make_trailers_frame(&status_ok()).unwrap());
    let (frames, used) = split_frames(&body);
    assert_eq!(used, body.len());
    assert_eq!(frames.len(), 2);
    assert_eq!(frames[0].payload, reply);
    assert_eq!(&frames[0].payload[2..], b"Hello Alice!");
}
