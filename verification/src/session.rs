//! Connection session: the server-side lifecycle of one accepted
//! connection, as a state machine driven by the surrounding I/O loop.
//!
//! The session owns its own frame decoder and shares nothing with other
//! sessions.  The loop feeds it the bytes it read ([`Session::on_chunk`]),
//! asks it what to do next ([`Session::next`]), runs the external time
//! action when told to ([`SessionStep::InvokeTime`], answered through
//! [`Session::on_time_outcome`]), writes the response frames it hands
//! out, and reports end of input ([`Session::on_eof`]) and write failures
//! ([`Session::on_write_failed`]).  Within one connection, frames are
//! answered strictly in arrival order: the session never hands out a
//! second frame's response before the first one's.

use vstd::prelude::*;

use crate::codec::{
    spec_encode, spec_first_frame, spec_has_frame, spec_oversized, spec_rest, DecodeStep, Decoder,
    encode_frame, DEFAULT_MAX_FRAME_LEN,
};
use crate::directive::{is_gettime, spec_gettime, spec_invalid_directive, spec_process,
    time_result, try_utf8, TimeOutcome};

verus! {

/// The answer when a frame's payload is not UTF-8 text: the payload is
/// unreadable, reported to the peer without closing the session.
pub open spec fn spec_unreadable_message() -> Seq<char> {
    "unable to interpret directive"@
}

/// What one decoded frame calls for: `Some(text)` when the session can
/// answer on its own (an unreadable payload or an unrecognized
/// directive), `None` when the frame asks for the time and the external
/// action must be run first.
pub open spec fn spec_frame_plan(f: Seq<u8>) -> Option<Seq<char>> {
    if !vstd::utf8::valid_utf8(f) {
        Some(spec_unreadable_message())
    } else if vstd::utf8::decode_utf8(f) == spec_gettime() {
        None
    } else {
        Some(spec_invalid_directive())
    }
}

/// A frame carrying any UTF-8 text is never unreadable: it is answered
/// by exact, case-sensitive match on the directive text — the time
/// action for `"gettime"`, the sentinel for everything else.
pub proof fn lemma_text_frame_plan(d: Seq<char>)
    ensures
        spec_frame_plan(vstd::utf8::encode_utf8(d)) == (if d == spec_gettime() {
            None::<Seq<char>>
        } else {
            Some(spec_invalid_directive())
        }),
{
    vstd::utf8::encode_utf8_valid_utf8(d);
    vstd::utf8::encode_utf8_decode_utf8(d);
}

/// Why a session ended.
#[derive(Clone, Copy, PartialEq, Eq, Structural, Debug)]
pub enum CloseReason {
    /// The stream ended exactly on a frame boundary: a normal end.
    CleanEof,
    /// The stream ended in the middle of a frame.
    TruncatedEof,
    /// A frame declared a payload over the configured maximum.
    Oversized,
    /// Writing a response to the peer failed.
    WriteFailed,
}

/// Where the session stands between two calls from the I/O loop.
#[derive(Clone, Copy, PartialEq, Eq, Structural, Debug)]
pub enum SessionPhase {
    /// Awaiting the next frame.
    Reading,
    /// A time request was decoded; the external action is outstanding.
    AwaitingTime,
    /// The session is over.
    Done(CloseReason),
}

/// What the I/O loop must do next.
#[derive(Debug)]
pub enum SessionStep {
    /// Nothing complete is buffered: read more bytes and feed them in.
    NeedRead,
    /// Run the external time action and report it to
    /// [`Session::on_time_outcome`].
    InvokeTime,
    /// Write these bytes, one whole response frame, to the peer.
    Send(Vec<u8>),
    /// Stop: the session ended for the given reason.
    Closed(CloseReason),
}

/// One connection's session state: its own decoder and its phase.
pub struct Session {
    dec: Decoder,
    phase: SessionPhase,
}

impl Session {
    /// The bytes received on this connection and not yet consumed.
    pub closed spec fn buffered(self) -> Seq<u8> {
        self.dec.buffered()
    }

    /// The configured maximum frame payload length.
    pub closed spec fn max_frame(self) -> nat {
        self.dec.max_frame()
    }

    /// The session's phase.
    pub closed spec fn spec_phase(self) -> SessionPhase {
        self.phase
    }

    /// A fresh session for one accepted connection.
    pub fn new(max_frame_len: usize) -> (s: Session)
        ensures
            s.buffered() == Seq::<u8>::empty(),
            s.max_frame() == max_frame_len as nat,
            s.spec_phase() == SessionPhase::Reading,
    {
        Session { dec: Decoder::new(max_frame_len), phase: SessionPhase::Reading }
    }

    /// A fresh session with the default frame length cap.
    pub fn with_default_max() -> (s: Session)
        ensures
            s.buffered() == Seq::<u8>::empty(),
            s.max_frame() == DEFAULT_MAX_FRAME_LEN as nat,
            s.spec_phase() == SessionPhase::Reading,
    {
        Session::new(DEFAULT_MAX_FRAME_LEN)
    }

    /// Hand the session one chunk read from the stream.
    pub fn on_chunk(&mut self, chunk: &[u8])
        ensures
            final(self).buffered() == old(self).buffered() + chunk@,
            final(self).max_frame() == old(self).max_frame(),
            final(self).spec_phase() == old(self).spec_phase(),
    {
        self.dec.feed(chunk);
    }

    /// Advance the session and learn what the I/O loop must do next.
    ///
    /// While reading, this consumes at most the first complete buffered
    /// frame: an oversized declaration closes the session; a time request
    /// suspends it until the action's outcome arrives; any other frame is
    /// answered at once with its encoded response, unreadable payloads
    /// with a fixed report and unrecognized directives with the sentinel.
    pub fn next(&mut self) -> (step: SessionStep)
        ensures
            final(self).max_frame() == old(self).max_frame(),
            (match old(self).spec_phase() {
                SessionPhase::Done(r) => {
                    &&& step == SessionStep::Closed(r)
                    &&& final(self).spec_phase() == old(self).spec_phase()
                    &&& final(self).buffered() == old(self).buffered()
                },
                SessionPhase::AwaitingTime => {
                    &&& step == SessionStep::InvokeTime
                    &&& final(self).spec_phase() == SessionPhase::AwaitingTime
                    &&& final(self).buffered() == old(self).buffered()
                },
                SessionPhase::Reading => {
                    let buf = old(self).buffered();
                    let max = old(self).max_frame();
                    if spec_oversized(buf, max) {
                        &&& step == SessionStep::Closed(CloseReason::Oversized)
                        &&& final(self).spec_phase() == SessionPhase::Done(CloseReason::Oversized)
                        &&& final(self).buffered() == buf
                    } else if spec_has_frame(buf, max) {
                        &&& final(self).buffered() == spec_rest(buf)
                        &&& (match spec_frame_plan(spec_first_frame(buf)) {
                            None => step == SessionStep::InvokeTime && final(self).spec_phase()
                                == SessionPhase::AwaitingTime,
                            Some(resp) => (step matches SessionStep::Send(v) && v@ == spec_encode(
                                vstd::utf8::encode_utf8(resp),
                            )) && final(self).spec_phase() == SessionPhase::Reading,
                        })
                    } else {
                        &&& step == SessionStep::NeedRead
                        &&& final(self).spec_phase() == SessionPhase::Reading
                        &&& final(self).buffered() == buf
                    }
                },
            }),
    {
        match self.phase {
            SessionPhase::Done(r) => SessionStep::Closed(r),
            SessionPhase::AwaitingTime => SessionStep::InvokeTime,
            SessionPhase::Reading => {
                match self.dec.poll() {
                    DecodeStep::Oversized => {
                        self.phase = SessionPhase::Done(CloseReason::Oversized);
                        SessionStep::Closed(CloseReason::Oversized)
                    },
                    DecodeStep::NeedMoreData => SessionStep::NeedRead,
                    DecodeStep::Frame(f) => {
                        match try_utf8(f.as_slice()) {
                            None => {
                                let msg = "unable to interpret directive";
                                proof {
                                    reveal_strlit("unable to interpret directive");
                                    assert(vstd::utf8::is_ascii_chars(msg@));
                                    vstd::utf8::is_ascii_chars_encode_utf8(msg@);
                                }
                                SessionStep::Send(send_text(msg))
                            },
                            Some(d) => {
                                proof {
                                    vstd::utf8::encode_utf8_decode_utf8(d@);
                                }
                                if is_gettime(d) {
                                    self.phase = SessionPhase::AwaitingTime;
                                    SessionStep::InvokeTime
                                } else {
                                    let msg = "invalid directive";
                                    proof {
                                        reveal_strlit("invalid directive");
                                        assert(vstd::utf8::is_ascii_chars(msg@));
                                        vstd::utf8::is_ascii_chars_encode_utf8(msg@);
                                    }
                                    SessionStep::Send(send_text(msg))
                                }
                            },
                        }
                    },
                }
            },
        }
    }

    /// Report the outcome of the external time action the session asked
    /// for.  Hands back the encoded response frame — the action's output
    /// verbatim, or the degraded error text — and resumes reading.
    pub fn on_time_outcome(&mut self, time: &TimeOutcome) -> (resp: Vec<u8>)
        requires
            old(self).spec_phase() == SessionPhase::AwaitingTime,
            time@ matches Some(t) ==> vstd::utf8::encode_utf8(t).len() <= u32::MAX,
        ensures
            final(self).spec_phase() == SessionPhase::Reading,
            final(self).buffered() == old(self).buffered(),
            final(self).max_frame() == old(self).max_frame(),
            resp@ == spec_encode(vstd::utf8::encode_utf8(spec_process(spec_gettime(), time@))),
    {
        let r = time_result(time);
        let rs = r.as_str();
        proof {
            if time@ is None {
                reveal_strlit("error: time unavailable");
                assert(vstd::utf8::is_ascii_chars(rs@));
                vstd::utf8::is_ascii_chars_encode_utf8(rs@);
            }
        }
        self.phase = SessionPhase::Reading;
        encode_frame(rs.as_bytes())
    }

    /// Report that the stream ended.  Ending exactly between frames is a
    /// clean close; ending with a partial frame buffered is a truncation
    /// error.  Either way the session is over.
    pub fn on_eof(&mut self) -> (clean: bool)
        requires
            old(self).spec_phase() == SessionPhase::Reading,
        ensures
            clean == (old(self).buffered().len() == 0),
            final(self).spec_phase() == (if clean {
                SessionPhase::Done(CloseReason::CleanEof)
            } else {
                SessionPhase::Done(CloseReason::TruncatedEof)
            }),
            final(self).buffered() == old(self).buffered(),
            final(self).max_frame() == old(self).max_frame(),
    {
        let clean = self.dec.is_idle();
        if clean {
            self.phase = SessionPhase::Done(CloseReason::CleanEof);
        } else {
            self.phase = SessionPhase::Done(CloseReason::TruncatedEof);
        }
        clean
    }

    /// Report that writing a response to the peer failed: the session is
    /// over, fatally for this connection only.
    pub fn on_write_failed(&mut self)
        ensures
            final(self).spec_phase() == SessionPhase::Done(CloseReason::WriteFailed),
            final(self).buffered() == old(self).buffered(),
            final(self).max_frame() == old(self).max_frame(),
    {
        self.phase = SessionPhase::Done(CloseReason::WriteFailed);
    }
}

/// Encode a response text as one frame for the wire.
fn send_text(s: &str) -> (r: Vec<u8>)
    requires
        vstd::utf8::encode_utf8(s@).len() <= u32::MAX,
    ensures
        r@ == spec_encode(vstd::utf8::encode_utf8(s@)),
{
    encode_frame(s.as_bytes())
}

} // verus!
