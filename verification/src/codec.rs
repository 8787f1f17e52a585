//! Frame codec: length-delimited framing over a byte stream.
//!
//! On the wire a frame is a four-byte big-endian length prefix followed by
//! exactly that many payload bytes.  [`encode_frame`] builds the wire form
//! of one payload; [`Decoder`] consumes an incoming stream incrementally,
//! buffering partial reads until a whole frame is available, and rejects a
//! frame whose declared length exceeds a configured maximum before any of
//! its payload bytes have arrived.

use vstd::prelude::*;

verus! {

/// Number of bytes in the length prefix of a frame.
pub const LEN_PREFIX_LEN: usize = 4;

/// Default cap on the payload length a decoder will accept.
pub const DEFAULT_MAX_FRAME_LEN: usize = 8 * 1024 * 1024;

/// The big-endian bytes of a 32-bit value, most significant byte first.
pub open spec fn spec_u32_to_be_bytes(x: u32) -> Seq<u8> {
    seq![
        ((x >> 24) & 0xff) as u8,
        ((x >> 16) & 0xff) as u8,
        ((x >> 8) & 0xff) as u8,
        (x & 0xff) as u8,
    ]
}

/// The 32-bit value read big-endian from four bytes.
pub open spec fn spec_u32_from_be_bytes(s: Seq<u8>) -> u32
    recommends
        s.len() == 4,
{
    ((s[0] as u32) << 24) | ((s[1] as u32) << 16) | ((s[2] as u32) << 8) | (s[3] as u32)
}

/// Reading back the big-endian bytes of a value yields the value.
pub proof fn lemma_u32_be_bytes_roundtrip(x: u32)
    ensures
        spec_u32_from_be_bytes(spec_u32_to_be_bytes(x)) == x,
{
    let b0 = ((x >> 24) & 0xff) as u8;
    let b1 = ((x >> 16) & 0xff) as u8;
    let b2 = ((x >> 8) & 0xff) as u8;
    let b3 = (x & 0xff) as u8;
    assert((((b0 as u32) << 24) | ((b1 as u32) << 16) | ((b2 as u32) << 8) | (b3 as u32)) == x)
        by (bit_vector)
        requires
            b0 == ((x >> 24) & 0xff) as u8,
            b1 == ((x >> 16) & 0xff) as u8,
            b2 == ((x >> 8) & 0xff) as u8,
            b3 == (x & 0xff) as u8,
    ;
}

/// Write a 32-bit value as its four big-endian bytes.
pub fn u32_to_be_bytes(x: u32) -> (r: Vec<u8>)
    ensures
        r@ == spec_u32_to_be_bytes(x),
{
    let mut r: Vec<u8> = Vec::new();
    r.push(((x >> 24) & 0xff) as u8);
    r.push(((x >> 16) & 0xff) as u8);
    r.push(((x >> 8) & 0xff) as u8);
    r.push((x & 0xff) as u8);
    proof {
        assert(r@ =~= spec_u32_to_be_bytes(x));
    }
    r
}

/// Read a 32-bit value from four big-endian bytes.
pub fn u32_from_be_bytes(b0: u8, b1: u8, b2: u8, b3: u8) -> (x: u32)
    ensures
        x == spec_u32_from_be_bytes(seq![b0, b1, b2, b3]),
{
    ((b0 as u32) << 24) | ((b1 as u32) << 16) | ((b2 as u32) << 8) | (b3 as u32)
}

/// The wire form of one payload: its length as four big-endian bytes,
/// then the payload itself.
pub open spec fn spec_encode(payload: Seq<u8>) -> Seq<u8>
    recommends
        payload.len() <= u32::MAX,
{
    spec_u32_to_be_bytes(payload.len() as u32) + payload
}

/// Encode one payload for the wire.
pub fn encode_frame(payload: &[u8]) -> (r: Vec<u8>)
    requires
        payload@.len() <= u32::MAX,
    ensures
        r@ == spec_encode(payload@),
{
    let n: u32 = payload.len() as u32;
    let mut r: Vec<u8> = u32_to_be_bytes(n);
    let mut i: usize = 0;
    while i < payload.len()
        invariant
            i <= payload@.len() <= u32::MAX,
            n == payload@.len() as u32,
            r@ == spec_u32_to_be_bytes(n) + payload@.take(i as int),
        decreases payload@.len() - i,
    {
        r.push(payload[i]);
        proof {
            assert(payload@.take(i + 1) =~= payload@.take(i as int).push(payload@[i as int]));
        }
        i = i + 1;
    }
    proof {
        assert(payload@.take(payload@.len() as int) =~= payload@);
    }
    r
}

/// The payload length the first four buffered bytes declare.
pub open spec fn spec_declared_len(buf: Seq<u8>) -> nat
    recommends
        buf.len() >= 4,
{
    spec_u32_from_be_bytes(buf.take(4)) as nat
}

/// The buffered prefix declares a length over the decoder's maximum:
/// a protocol violation, detected from the prefix alone.
pub open spec fn spec_oversized(buf: Seq<u8>, max: nat) -> bool {
    buf.len() >= 4 && spec_declared_len(buf) > max
}

/// The buffer holds a complete frame within the length limit.
pub open spec fn spec_has_frame(buf: Seq<u8>, max: nat) -> bool {
    buf.len() >= 4 && spec_declared_len(buf) <= max && buf.len() >= 4 + spec_declared_len(buf)
}

/// The payload of the first complete frame in the buffer.
pub open spec fn spec_first_frame(buf: Seq<u8>) -> Seq<u8>
    recommends
        buf.len() >= 4 + spec_declared_len(buf),
{
    buf.subrange(4, 4 + spec_declared_len(buf) as int)
}

/// What remains buffered once the first frame is consumed.
pub open spec fn spec_rest(buf: Seq<u8>) -> Seq<u8>
    recommends
        buf.len() >= 4 + spec_declared_len(buf),
{
    buf.skip(4 + spec_declared_len(buf) as int)
}

/// Outcome of one decode attempt on the buffered bytes.
#[derive(Debug)]
pub enum DecodeStep {
    /// A complete frame was available; its payload is handed out.
    Frame(Vec<u8>),
    /// No complete frame is buffered yet; feed more bytes or,
    /// if the stream ended here with an empty buffer, stop cleanly.
    NeedMoreData,
    /// The length prefix declares a payload over the configured maximum.
    Oversized,
}

/// Incremental decoder: accumulates stream bytes fed to it and yields one
/// complete frame payload per successful [`Decoder::poll`].
pub struct Decoder {
    buf: Vec<u8>,
    max_frame_len: usize,
}

impl Decoder {
    /// The bytes received and not yet consumed as frames.
    pub closed spec fn buffered(self) -> Seq<u8> {
        self.buf@
    }

    /// The configured maximum payload length.
    pub closed spec fn max_frame(self) -> nat {
        self.max_frame_len as nat
    }

    /// A decoder with the given payload length cap and nothing buffered.
    pub fn new(max_frame_len: usize) -> (d: Decoder)
        ensures
            d.buffered() == Seq::<u8>::empty(),
            d.max_frame() == max_frame_len as nat,
    {
        Decoder { buf: Vec::new(), max_frame_len }
    }

    /// A decoder with the default payload length cap.
    pub fn with_default_max() -> (d: Decoder)
        ensures
            d.buffered() == Seq::<u8>::empty(),
            d.max_frame() == DEFAULT_MAX_FRAME_LEN as nat,
    {
        Decoder::new(DEFAULT_MAX_FRAME_LEN)
    }

    /// Append one chunk read from the stream to the buffer.  Decoding
    /// depends only on the concatenation of the fed chunks, never on how
    /// the stream split them.
    pub fn feed(&mut self, chunk: &[u8])
        ensures
            final(self).buffered() == old(self).buffered() + chunk@,
            final(self).max_frame() == old(self).max_frame(),
    {
        let mut i: usize = 0;
        while i < chunk.len()
            invariant
                i <= chunk@.len(),
                self.buf@ == old(self).buf@ + chunk@.take(i as int),
                self.max_frame_len == old(self).max_frame_len,
            decreases chunk@.len() - i,
        {
            self.buf.push(chunk[i]);
            proof {
                assert(old(self).buf@ + chunk@.take(i + 1) =~= (old(self).buf@ + chunk@.take(
                    i as int,
                )).push(chunk@[i as int]));
            }
            i = i + 1;
        }
        proof {
            assert(chunk@.take(chunk@.len() as int) =~= chunk@);
        }
    }

    /// Attempt to decode one frame from the buffered bytes.
    ///
    /// Exactly one of three things happens: the first complete frame is
    /// removed from the buffer and handed out; the prefix declares an
    /// oversized payload and the buffer is left untouched; or nothing
    /// complete is buffered and the buffer is left untouched.
    pub fn poll(&mut self) -> (step: DecodeStep)
        ensures
            final(self).max_frame() == old(self).max_frame(),
            (match step {
                DecodeStep::Frame(f) => {
                    &&& spec_has_frame(old(self).buffered(), old(self).max_frame())
                    &&& f@ == spec_first_frame(old(self).buffered())
                    &&& final(self).buffered() == spec_rest(old(self).buffered())
                },
                DecodeStep::NeedMoreData => {
                    &&& !spec_has_frame(old(self).buffered(), old(self).max_frame())
                    &&& !spec_oversized(old(self).buffered(), old(self).max_frame())
                    &&& final(self).buffered() == old(self).buffered()
                },
                DecodeStep::Oversized => {
                    &&& spec_oversized(old(self).buffered(), old(self).max_frame())
                    &&& final(self).buffered() == old(self).buffered()
                },
            }),
    {
        if self.buf.len() < LEN_PREFIX_LEN {
            return DecodeStep::NeedMoreData;
        }
        let declared32: u32 = u32_from_be_bytes(self.buf[0], self.buf[1], self.buf[2], self.buf[3]);
        proof {
            assert(seq![
                self.buf@[0],
                self.buf@[1],
                self.buf@[2],
                self.buf@[3],
            ] =~= self.buf@.take(4));
        }
        let declared: usize = declared32 as usize;
        if declared > self.max_frame_len {
            return DecodeStep::Oversized;
        }
        if self.buf.len() - LEN_PREFIX_LEN < declared {
            return DecodeStep::NeedMoreData;
        }
        let mut payload = self.buf.split_off(LEN_PREFIX_LEN);
        let rest = payload.split_off(declared);
        self.buf = rest;
        proof {
            assert(payload@ =~= spec_first_frame(old(self).buf@));
            assert(self.buf@ =~= spec_rest(old(self).buf@));
        }
        DecodeStep::Frame(payload)
    }

    /// True when nothing is buffered: a stream that ends now ends cleanly
    /// on a frame boundary, with no truncated frame pending.
    pub fn is_idle(&self) -> (r: bool)
        ensures
            r == (self.buffered().len() == 0),
    {
        self.buf.len() == 0
    }
}

/// The concatenated wire form of a sequence of payloads.
pub open spec fn spec_encode_stream(ps: Seq<Seq<u8>>) -> Seq<u8>
    decreases ps.len(),
{
    if ps.len() == 0 {
        Seq::empty()
    } else {
        spec_encode(ps.first()) + spec_encode_stream(ps.drop_first())
    }
}

/// The frames a buffer decodes into when consumed to the end: `Some` of
/// all payloads when the bytes are exactly a run of complete frames within
/// the limit (a clean end of stream), `None` when decoding gets stuck on a
/// truncated or oversized frame.
pub open spec fn spec_frames(buf: Seq<u8>, max: nat) -> Option<Seq<Seq<u8>>>
    decreases buf.len(),
{
    if buf.len() == 0 {
        Some(Seq::empty())
    } else if spec_has_frame(buf, max) {
        match spec_frames(spec_rest(buf), max) {
            Some(tail) => Some(seq![spec_first_frame(buf)] + tail),
            None => None,
        }
    } else {
        None
    }
}

/// Decoding an encoded payload off the front of a buffer yields exactly
/// that payload and leaves exactly the trailing bytes, however the stream
/// was chunked.
pub proof fn lemma_decode_encoded_frame(p: Seq<u8>, rest: Seq<u8>, max: nat)
    requires
        p.len() <= max,
        p.len() <= u32::MAX,
    ensures
        spec_has_frame(spec_encode(p) + rest, max),
        spec_first_frame(spec_encode(p) + rest) == p,
        spec_rest(spec_encode(p) + rest) == rest,
{
    let buf = spec_encode(p) + rest;
    lemma_u32_be_bytes_roundtrip(p.len() as u32);
    assert(buf.take(4) =~= spec_u32_to_be_bytes(p.len() as u32));
    assert(spec_declared_len(buf) == p.len());
    assert(spec_first_frame(buf) =~= p);
    assert(spec_rest(buf) =~= rest);
}

/// Round trip of a whole stream: the concatenated encodings of any
/// payloads, each within the limit, decode back to exactly those payloads
/// followed by a clean end of stream.
pub proof fn lemma_stream_roundtrip(ps: Seq<Seq<u8>>, max: nat)
    requires
        max <= u32::MAX,
        forall|i: int| 0 <= i < ps.len() ==> #[trigger] ps[i].len() <= max,
    ensures
        spec_frames(spec_encode_stream(ps), max) == Some(ps),
    decreases ps.len(),
{
    if ps.len() == 0 {
        assert(ps =~= Seq::<Seq<u8>>::empty());
    } else {
        let p = ps.first();
        let tail_bytes = spec_encode_stream(ps.drop_first());
        lemma_decode_encoded_frame(p, tail_bytes, max);
        assert(forall|i: int|
            0 <= i < ps.drop_first().len() ==> #[trigger] ps.drop_first()[i].len() <= max);
        lemma_stream_roundtrip(ps.drop_first(), max);
        let buf = spec_encode(p) + tail_bytes;
        assert(buf.len() >= 4);
        assert(spec_frames(buf, max) == Some(seq![p] + ps.drop_first()));
        assert(seq![p] + ps.drop_first() =~= ps);
    }
}

/// An oversized declaration is rejected from the length prefix alone:
/// whatever bytes follow the prefix, if any, decoding signals the size
/// violation rather than delivering a frame.
pub proof fn lemma_oversized_rejected(p: Seq<u8>, following: Seq<u8>, max: nat)
    requires
        max < p.len() <= u32::MAX,
    ensures
        spec_oversized(spec_u32_to_be_bytes(p.len() as u32) + following, max),
        !spec_has_frame(spec_u32_to_be_bytes(p.len() as u32) + following, max),
        spec_frames(spec_u32_to_be_bytes(p.len() as u32) + following, max) == None::<Seq<Seq<u8>>>,
{
    let buf = spec_u32_to_be_bytes(p.len() as u32) + following;
    lemma_u32_be_bytes_roundtrip(p.len() as u32);
    assert(buf.take(4) =~= spec_u32_to_be_bytes(p.len() as u32));
    assert(spec_declared_len(buf) == p.len());
}

} // verus!
