use vstd::prelude::*;
use crate::codec::{frame_bytes, make_trailers_frame, trailer_lines, TRAILERS_FLAG};
use crate::headers::{HeaderList, HeaderSeq};

verus! {

/// One unit of a body stream: a chunk of data, or the trailers that end it.
pub enum Frame {
    Data(Vec<u8>),
    Trailers(HeaderList),
}

/// The abstract value of a frame.
pub enum FrameView {
    Data(Seq<u8>),
    Trailers(HeaderSeq),
}

impl View for Frame {
    type V = FrameView;

    open spec fn view(&self) -> FrameView {
        match self {
            Frame::Data(d) => FrameView::Data(d@),
            Frame::Trailers(t) => FrameView::Trailers(t@),
        }
    }
}

/// How a response body travels back to the client.
#[derive(PartialEq, Eq, Structural, Clone, Copy, Debug)]
pub enum BodyMode {
    /// Every frame as the backend sent it, trailers included.
    Passthrough,
    /// Trailers folded into the body as a gRPC-Web trailer pseudo-frame.
    GrpcWeb,
}

/// Whether the trailers of `f`, if it holds trailers, fit a four-byte length.
pub open spec fn fits(f: FrameView) -> bool {
    match f {
        FrameView::Data(_) => true,
        FrameView::Trailers(t) => trailer_lines(t).len() <= u32::MAX,
    }
}

/// What the client receives for the frame `f`.
pub open spec fn relayed(mode: BodyMode, f: FrameView) -> FrameView {
    match (mode, f) {
        (BodyMode::GrpcWeb, FrameView::Trailers(t)) => FrameView::Data(
            frame_bytes(TRAILERS_FLAG, trailer_lines(t)),
        ),
        _ => f,
    }
}

/// What the client receives for the body `s`, frame by frame.
pub open spec fn relayed_body(mode: BodyMode, s: Seq<FrameView>) -> Seq<FrameView> {
    s.map_values(|f: FrameView| relayed(mode, f))
}

/// The frame to hand on for `frame`; `None` only in gRPC-Web mode, for
/// trailers too long for the four-byte length of their pseudo-frame.
pub fn relay_frame(mode: BodyMode, frame: Frame) -> (r: Option<Frame>)
    ensures
        r is None <==> (mode == BodyMode::GrpcWeb && !fits(frame@)),
        r matches Some(o) ==> o@ == relayed(mode, frame@),
{
    match mode {
        BodyMode::Passthrough => Some(frame),
        BodyMode::GrpcWeb => match frame {
            Frame::Data(d) => Some(Frame::Data(d)),
            Frame::Trailers(t) => match make_trailers_frame(&t) {
                Some(b) => Some(Frame::Data(b)),
                None => None,
            },
        },
    }
}

/// Relaying keeps the body's shape: as many frames as came in, each in its
/// place; in gRPC-Web mode none of them is a trailer frame, and data frames
/// pass unchanged; in passthrough mode the body is the backend's own.
pub proof fn lemma_relay_keeps_order(mode: BodyMode, s: Seq<FrameView>)
    ensures
        relayed_body(mode, s).len() == s.len(),
        forall|i: int| 0 <= i < s.len() ==> #[trigger] relayed_body(mode, s)[i] == relayed(mode, s[i]),
        mode == BodyMode::GrpcWeb ==> forall|i: int|
            0 <= i < s.len() ==> #[trigger] relayed_body(mode, s)[i] is Data,
        mode == BodyMode::GrpcWeb ==> forall|i: int|
            0 <= i < s.len() && s[i] is Data ==> #[trigger] relayed_body(mode, s)[i] == s[i],
        mode == BodyMode::Passthrough ==> relayed_body(mode, s) == s,
{
    if mode == BodyMode::Passthrough {
        assert(relayed_body(mode, s) =~= s);
    }
}

/// A gRPC-Web body of two data frames and then trailers comes out as three
/// data frames: the two chunks unchanged and in order, then the trailer
/// pseudo-frame.
pub proof fn lemma_two_chunks_then_trailers(a: Seq<u8>, b: Seq<u8>, t: HeaderSeq)
    ensures
        relayed_body(
            BodyMode::GrpcWeb,
            seq![FrameView::Data(a), FrameView::Data(b), FrameView::Trailers(t)],
        ) == seq![
            FrameView::Data(a),
            FrameView::Data(b),
            FrameView::Data(frame_bytes(TRAILERS_FLAG, trailer_lines(t))),
        ],
{
    assert(relayed_body(
        BodyMode::GrpcWeb,
        seq![FrameView::Data(a), FrameView::Data(b), FrameView::Trailers(t)],
    ) =~= seq![
        FrameView::Data(a),
        FrameView::Data(b),
        FrameView::Data(frame_bytes(TRAILERS_FLAG, trailer_lines(t))),
    ]);
}

} // verus!
