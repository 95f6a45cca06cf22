use vstd::prelude::*;
use crate::bytes_util::append_bytes;
use crate::headers::{HeaderList, HeaderSeq, HeaderField};

verus! {

/// Flag byte of a length-prefixed frame that carries a message.
pub const MESSAGE_FLAG: u8 = 0;

/// Flag byte of the gRPC-Web frame that carries trailers (the high bit set).
pub const TRAILERS_FLAG: u8 = 0x80;

/// Size of a frame header: one flag byte and a four-byte length.
pub const FRAME_HEADER_SIZE: usize = 5;

/// The four bytes of `n` (below 2^32), most significant first.
pub open spec fn be32(n: nat) -> Seq<u8> {
    seq![
        (n / 0x1000000 % 0x100) as u8,
        (n / 0x10000 % 0x100) as u8,
        (n / 0x100 % 0x100) as u8,
        (n % 0x100) as u8,
    ]
}

/// The number that four bytes give, read most significant first.
pub open spec fn be32_value(b: Seq<u8>) -> nat {
    (b[0] as nat) * 0x1000000 + (b[1] as nat) * 0x10000 + (b[2] as nat) * 0x100 + (b[3] as nat)
}

/// A frame on the wire: flag byte, big-endian length of the payload, payload.
pub open spec fn frame_bytes(flag: u8, payload: Seq<u8>) -> Seq<u8> {
    seq![flag] + be32(payload.len()) + payload
}

/// One trailer in its gRPC-Web text form: `name:value` and CR LF.
pub open spec fn trailer_line(f: (Seq<u8>, Seq<u8>)) -> Seq<u8> {
    f.0 + seq![0x3Au8] + f.1 + seq![0x0Du8, 0x0Au8]
}

/// The lines of every trailer of `s`, in order, with no closing blank line.
pub open spec fn trailer_lines(s: HeaderSeq) -> Seq<u8>
    decreases s.len(),
{
    if s.len() == 0 {
        Seq::empty()
    } else {
        trailer_lines(s.drop_last()) + trailer_line(s.last())
    }
}

/// The frames that `buf` holds from its start, as (flag, payload) pairs; an
/// incomplete frame at the end is not among them.
pub open spec fn parse_frames(buf: Seq<u8>) -> Seq<(u8, Seq<u8>)>
    decreases buf.len(),
{
    if buf.len() < 5 {
        Seq::empty()
    } else {
        let n = be32_value(buf.subrange(1, 5)) as int;
        if buf.len() < 5 + n {
            Seq::empty()
        } else {
            seq![(buf[0], buf.subrange(5, 5 + n))] + parse_frames(buf.subrange(5 + n, buf.len() as int))
        }
    }
}

/// How many bytes at the start of `buf` the complete frames take.
pub open spec fn parsed_len(buf: Seq<u8>) -> nat
    decreases buf.len(),
{
    if buf.len() < 5 {
        0
    } else {
        let n = be32_value(buf.subrange(1, 5)) as int;
        if buf.len() < 5 + n {
            0
        } else {
            (5 + n + parsed_len(buf.subrange(5 + n, buf.len() as int))) as nat
        }
    }
}

proof fn lemma_be32_value(n: nat)
    requires
        n <= u32::MAX,
    ensures
        be32_value(be32(n)) == n,
{
    let b = be32(n);
    assert((n / 0x1000000 % 0x100) * 0x1000000 + (n / 0x10000 % 0x100) * 0x10000
        + (n / 0x100 % 0x100) * 0x100 + n % 0x100 == n) by (nonlinear_arith)
        requires
            n <= 0xFFFF_FFFF,
    ;
}

/// Reading back a frame: the frame comes out whole, and parsing goes on with
/// whatever follows it.
pub proof fn lemma_frame_round_trip(flag: u8, payload: Seq<u8>, rest: Seq<u8>)
    requires
        payload.len() <= u32::MAX,
    ensures
        parse_frames(frame_bytes(flag, payload) + rest) == seq![(flag, payload)] + parse_frames(rest),
        parsed_len(frame_bytes(flag, payload) + rest) == 5 + payload.len() + parsed_len(rest),
{
    let buf = frame_bytes(flag, payload) + rest;
    lemma_be32_value(payload.len());
    assert(buf.subrange(1, 5) =~= be32(payload.len()));
    assert(buf.subrange(5, 5 + payload.len() as int) =~= payload);
    assert(buf.subrange(5 + payload.len() as int, buf.len() as int) =~= rest);
}

/// Appends the four bytes of `n`, most significant first.
pub fn put_u32_be(buf: &mut Vec<u8>, n: u32)
    ensures
        final(buf)@ == old(buf)@ + be32(n as nat),
{
    buf.push((n / 0x1000000 % 0x100) as u8);
    buf.push((n / 0x10000 % 0x100) as u8);
    buf.push((n / 0x100 % 0x100) as u8);
    buf.push((n % 0x100) as u8);
    assert(buf@ =~= old(buf)@ + be32(n as nat));
}

/// The number in the four bytes of `b` from `at` on, most significant first.
pub fn get_u32_be(b: &[u8], at: usize) -> (r: u32)
    requires
        at + 4 <= b@.len(),
    ensures
        r as nat == be32_value(b@.subrange(at as int, at + 4)),
{
    let r = (b[at] as u32) * 0x1000000 + (b[at + 1] as u32) * 0x10000 + (b[at + 2] as u32) * 0x100
        + (b[at + 3] as u32);
    r
}

/// The gRPC-Web text form of a trailer set: `name:value` and CR LF for each
/// trailer, in order, duplicates each on a line of their own.
pub fn encode_trailers(trailers: &HeaderList) -> (r: Vec<u8>)
    ensures
        r@ == trailer_lines(trailers@),
{
    let mut out: Vec<u8> = Vec::new();
    let mut i: usize = 0;
    while i < trailers.fields.len()
        invariant
            i <= trailers@.len(),
            out@ == trailer_lines(trailers@.subrange(0, i as int)),
        decreases trailers@.len() - i,
    {
        let f: &HeaderField = &trailers.fields[i];
        assert(trailers@.subrange(0, i + 1).drop_last() =~= trailers@.subrange(0, i as int));
        assert(trailers@[i as int] == f@);
        append_bytes(&mut out, f.name.as_slice());
        out.push(0x3A);
        append_bytes(&mut out, f.value.as_slice());
        out.push(0x0D);
        out.push(0x0A);
        i = i + 1;
        assert(out@ =~= trailer_lines(trailers@.subrange(0, i as int)));
    }
    assert(trailers@.subrange(0, i as int) =~= trailers@);
    out
}

/// A frame with flag `flag` around `payload`; `None` when the payload is too
/// long for the four-byte length.
pub fn make_frame(flag: u8, payload: &[u8]) -> (r: Option<Vec<u8>>)
    ensures
        r is None <==> payload@.len() > u32::MAX,
        r matches Some(b) ==> b@ == frame_bytes(flag, payload@),
{
    if payload.len() > u32::MAX as usize {
        return None;
    }
    let mut frame: Vec<u8> = Vec::new();
    frame.push(flag);
    put_u32_be(&mut frame, payload.len() as u32);
    append_bytes(&mut frame, payload);
    assert(frame@ =~= frame_bytes(flag, payload@));
    Some(frame)
}

/// The gRPC-Web trailer pseudo-frame: flag 0x80, the big-endian length of the
/// encoded trailers, then the encoded trailers. `None` when they do not fit a
/// four-byte length.
pub fn make_trailers_frame(trailers: &HeaderList) -> (r: Option<Vec<u8>>)
    ensures
        r is None <==> trailer_lines(trailers@).len() > u32::MAX,
        r matches Some(b) ==> b@ == frame_bytes(TRAILERS_FLAG, trailer_lines(trailers@)),
{
    let lines = encode_trailers(trailers);
    make_frame(TRAILERS_FLAG, lines.as_slice())
}

/// A message frame (flag 0) around an encoded message.
pub fn frame_message(message: &[u8]) -> (r: Option<Vec<u8>>)
    ensures
        r is None <==> message@.len() > u32::MAX,
        r matches Some(b) ==> b@ == frame_bytes(MESSAGE_FLAG, message@),
{
    make_frame(MESSAGE_FLAG, message)
}

/// One frame read back from a buffer.
pub struct GrpcFrame {
    pub flag: u8,
    pub payload: Vec<u8>,
}

impl View for GrpcFrame {
    type V = (u8, Seq<u8>);

    open spec fn view(&self) -> (u8, Seq<u8>) {
        (self.flag, self.payload@)
    }
}

/// The complete frames at the start of `buf`, and how many bytes they take;
/// the bytes after them are the start of a frame still to come.
pub fn split_frames(buf: &[u8]) -> (r: (Vec<GrpcFrame>, usize))
    ensures
        r.0@.map_values(|f: GrpcFrame| f@) == parse_frames(buf@),
        r.1 as nat == parsed_len(buf@),
{
    let mut frames: Vec<GrpcFrame> = Vec::new();
    let mut pos: usize = 0;
    let ghost len = buf@.len();
    assert(buf@.subrange(0, len as int) =~= buf@);
    assert(frames@.map_values(|f: GrpcFrame| f@) =~= Seq::<(u8, Seq<u8>)>::empty());
    loop
        invariant
            pos <= len,
            len == buf@.len(),
            frames@.map_values(|f: GrpcFrame| f@) + parse_frames(buf@.subrange(pos as int, len as int))
                == parse_frames(buf@),
            pos + parsed_len(buf@.subrange(pos as int, len as int)) == parsed_len(buf@),
        decreases len - pos,
    {
        let ghost tail = buf@.subrange(pos as int, len as int);
        if buf.len() - pos < FRAME_HEADER_SIZE {
            assert(parse_frames(tail) == Seq::<(u8, Seq<u8>)>::empty());
            assert(frames@.map_values(|f: GrpcFrame| f@) =~= parse_frames(buf@));
            return (frames, pos);
        }
        let n = get_u32_be(buf, pos + 1);
        assert(buf@.subrange(pos + 1, pos + 5) =~= tail.subrange(1, 5));
        if buf.len() - pos - FRAME_HEADER_SIZE < n as usize {
            assert(frames@.map_values(|f: GrpcFrame| f@) =~= parse_frames(buf@));
            return (frames, pos);
        }
        let mut payload: Vec<u8> = Vec::new();
        let mut k: usize = 0;
        while k < n as usize
            invariant
                k <= n,
                pos + 5 + n <= len,
                len <= usize::MAX,
                len == buf@.len(),
                payload@ == buf@.subrange(pos + 5, pos + 5 + k),
            decreases n - k,
        {
            payload.push(buf[pos + 5 + k]);
            k = k + 1;
            assert(payload@ =~= buf@.subrange(pos + 5, pos + 5 + k));
        }
        let ghost prev = frames@.map_values(|f: GrpcFrame| f@);
        assert(tail.subrange(5, 5 + n) =~= buf@.subrange(pos + 5, pos + 5 + n));
        assert(tail[0] == buf@[pos as int]);
        frames.push(GrpcFrame { flag: buf[pos], payload });
        assert(frames@.map_values(|f: GrpcFrame| f@) =~= prev.push((tail[0], tail.subrange(5, 5 + n))));
        assert(tail.subrange(5 + n, tail.len() as int) =~= buf@.subrange(pos + 5 + n, len as int));
        assert(parse_frames(tail) == seq![(tail[0], tail.subrange(5, 5 + n))] + parse_frames(
            tail.subrange(5 + n, tail.len() as int),
        ));
        assert(tail.subrange(5, 5 + n) =~= buf@.subrange(pos + 5, pos + 5 + n));
        pos = pos + 5 + n as usize;
        assert(prev + parse_frames(tail) =~= frames@.map_values(|f: GrpcFrame| f@) + parse_frames(
            buf@.subrange(pos as int, len as int),
        ));
    }
}

} // verus!

verus! {

/// Reading back a trailer pseudo-frame gives one frame, flagged 0x80, whose
/// payload is exactly the encoded trailer lines, and it takes all the bytes.
pub proof fn lemma_trailers_frame_round_trip(trailers: HeaderSeq)
    requires
        trailer_lines(trailers).len() <= u32::MAX,
    ensures
        parse_frames(frame_bytes(TRAILERS_FLAG, trailer_lines(trailers)))
            == seq![(TRAILERS_FLAG, trailer_lines(trailers))],
        parsed_len(frame_bytes(TRAILERS_FLAG, trailer_lines(trailers)))
            == frame_bytes(TRAILERS_FLAG, trailer_lines(trailers)).len(),
{
    let lines = trailer_lines(trailers);
    lemma_frame_round_trip(TRAILERS_FLAG, lines, Seq::empty());
    assert(frame_bytes(TRAILERS_FLAG, lines) + Seq::<u8>::empty() =~= frame_bytes(TRAILERS_FLAG, lines));
    assert(parse_frames(Seq::<u8>::empty()) == Seq::<(u8, Seq<u8>)>::empty());
    assert(seq![(TRAILERS_FLAG, lines)] + Seq::<(u8, Seq<u8>)>::empty() =~= seq![(TRAILERS_FLAG, lines)]);
}

} // verus!
