//! Framing of the byte stream: what to write for a message, and how the
//! bytes that arrive fall into messages.
//!
//! A frame is a header of eight bytes followed by as many payload bytes as
//! the header announces. [`DiscordIPCSocket`] does no I/O of its own. `send`
//! puts the bytes of one whole frame at the end of a queue, and the caller
//! writes to the stream what `take_outbound` hands out; `recv` takes frames
//! off the front of the bytes that the caller has read and handed over with
//! `push_bytes`. Senders can only add whole frames to the queue, one after
//! another, so whatever order they come in, a reader of the stream finds
//! each message as it was sent.

use vstd::prelude::*;
use vstd::string::*;
use vstd::utf8::*;

use crate::errors::DiscordRPCError;
use crate::utils::{
    header_bytes, header_length, header_opcode, lemma_header_round_trip, pack, read_le,
};

verus! {

/// The bytes of one frame: the header for `opcode` and the payload's length,
/// then the payload.
pub open spec fn frame_bytes(opcode: u32, payload: Seq<u8>) -> Seq<u8>
    recommends
        payload.len() <= u32::MAX,
{
    header_bytes(opcode, payload.len() as u32) + payload
}

/// Whether `stream` starts with a whole frame: a header, and all the payload
/// bytes that it announces.
pub open spec fn frame_complete(stream: Seq<u8>) -> bool {
    stream.len() >= 8 && stream.len() >= 8 + header_length(stream.subrange(0, 8))
}

/// Where the first frame of `stream` ends.
pub open spec fn first_end(stream: Seq<u8>) -> int
    recommends
        frame_complete(stream),
{
    8 + header_length(stream.subrange(0, 8))
}

/// The opcode of the first frame of `stream`.
pub open spec fn first_opcode(stream: Seq<u8>) -> u32
    recommends
        frame_complete(stream),
{
    header_opcode(stream.subrange(0, 8))
}

/// The payload of the first frame of `stream`.
pub open spec fn first_payload(stream: Seq<u8>) -> Seq<u8>
    recommends
        frame_complete(stream),
{
    stream.subrange(8, first_end(stream))
}

/// What follows the first frame of `stream`.
pub open spec fn after_first(stream: Seq<u8>) -> Seq<u8>
    recommends
        frame_complete(stream),
{
    stream.subrange(first_end(stream), stream.len() as int)
}

/// How many more bytes must arrive before `stream` starts with a whole
/// frame: the rest of the header while that is incomplete, then the rest of
/// the payload.
pub open spec fn missing(stream: Seq<u8>) -> int {
    if stream.len() < 8 {
        8 - stream.len()
    } else if frame_complete(stream) {
        0
    } else {
        first_end(stream) - stream.len()
    }
}

/// The bytes of a sequence of frames written one after another, each whole.
pub open spec fn stream_of(frames: Seq<(u32, Seq<u8>)>) -> Seq<u8>
    decreases frames.len(),
{
    if frames.len() == 0 {
        Seq::empty()
    } else {
        frame_bytes(frames[0].0, frames[0].1) + stream_of(frames.drop_first())
    }
}

/// The whole frames at the front of `stream`, in order.
pub open spec fn deframe(stream: Seq<u8>) -> Seq<(u32, Seq<u8>)>
    decreases stream.len(),
{
    if frame_complete(stream) {
        seq![(first_opcode(stream), first_payload(stream))] + deframe(after_first(stream))
    } else {
        Seq::empty()
    }
}

/// A frame followed by anything is read back as that frame, and what
/// followed is left over unchanged.
pub proof fn lemma_first_frame(opcode: u32, payload: Seq<u8>, rest: Seq<u8>)
    requires
        payload.len() <= u32::MAX,
    ensures
        frame_complete(frame_bytes(opcode, payload) + rest),
        first_opcode(frame_bytes(opcode, payload) + rest) == opcode,
        first_payload(frame_bytes(opcode, payload) + rest) == payload,
        after_first(frame_bytes(opcode, payload) + rest) == rest,
        missing(frame_bytes(opcode, payload) + rest) == 0,
{
    let stream = frame_bytes(opcode, payload) + rest;
    lemma_header_round_trip(opcode, payload.len() as u32);
    assert(stream.subrange(0, 8) =~= header_bytes(opcode, payload.len() as u32));
    assert(first_payload(stream) =~= payload);
    assert(after_first(stream) =~= rest);
}

/// Reading a stream that starts with a whole frame gives that frame, and
/// then whatever reading the rest gives.
pub proof fn lemma_deframe_step(opcode: u32, payload: Seq<u8>, rest: Seq<u8>)
    requires
        payload.len() <= u32::MAX,
    ensures
        deframe(frame_bytes(opcode, payload) + rest) == seq![(opcode, payload)] + deframe(rest),
{
    lemma_first_frame(opcode, payload, rest);
}

/// Frames that are written whole, in whatever order their writers took
/// turns, are read back as exactly those frames in exactly that order: no
/// frame that comes out holds bytes of two that went in.
pub proof fn lemma_whole_frames_read_back(frames: Seq<(u32, Seq<u8>)>)
    requires
        forall|i: int| 0 <= i < frames.len() ==> (#[trigger] frames[i]).1.len() <= u32::MAX,
    ensures
        deframe(stream_of(frames)) == frames,
    decreases frames.len(),
{
    if frames.len() == 0 {
        assert(!frame_complete(stream_of(frames)));
        assert(deframe(stream_of(frames)) =~= frames);
    } else {
        let rest = frames.drop_first();
        assert forall|i: int| 0 <= i < rest.len() implies (#[trigger] rest[i]).1.len()
            <= u32::MAX by {
            assert(rest[i] == frames[i + 1]);
        }
        lemma_whole_frames_read_back(rest);
        lemma_first_frame(frames[0].0, frames[0].1, stream_of(rest));
        assert(deframe(stream_of(frames)) =~= frames);
    }
}

/// Two frames written whole, one after the other, come out as the first and
/// then the second, whichever of the two writers went first.
pub proof fn lemma_two_writers(a: (u32, Seq<u8>), b: (u32, Seq<u8>))
    requires
        a.1.len() <= u32::MAX,
        b.1.len() <= u32::MAX,
    ensures
        deframe(frame_bytes(a.0, a.1) + frame_bytes(b.0, b.1)) == seq![a, b],
        deframe(frame_bytes(b.0, b.1) + frame_bytes(a.0, a.1)) == seq![b, a],
{
    let fa = frame_bytes(a.0, a.1);
    let fb = frame_bytes(b.0, b.1);
    let none = Seq::<u8>::empty();
    assert(deframe(none) =~= Seq::<(u32, Seq<u8>)>::empty());
    lemma_deframe_step(a.0, a.1, none);
    lemma_deframe_step(b.0, b.1, none);
    assert(fa + none =~= fa);
    assert(fb + none =~= fb);
    lemma_deframe_step(a.0, a.1, fb);
    lemma_deframe_step(b.0, b.1, fa);
    assert(seq![a] + (seq![b] + Seq::<(u32, Seq<u8>)>::empty()) =~= seq![a, b]);
    assert(seq![b] + (seq![a] + Seq::<(u32, Seq<u8>)>::empty()) =~= seq![b, a]);
}

/// Reading exactly what is missing is enough, in two steps at most: bytes
/// that complete the header leave the payload to be read, and bytes that
/// complete the payload leave one whole frame and nothing after it.
pub proof fn lemma_missing_is_enough(stream: Seq<u8>, more: Seq<u8>)
    requires
        more.len() == missing(stream),
    ensures
        stream.len() < 8 ==> (stream + more).len() == 8,
        stream.len() >= 8 ==> frame_complete(stream + more),
        stream.len() >= 8 && !frame_complete(stream) ==> after_first(stream + more) == Seq::<
            u8,
        >::empty(),
{
    if stream.len() >= 8 {
        let all = stream + more;
        assert(all.subrange(0, 8) =~= stream.subrange(0, 8));
        if frame_complete(stream) {
            assert(all =~= stream);
        } else {
            assert(after_first(all) =~= Seq::<u8>::empty());
        }
    }
}

/// Whether a stream is a run of whole frames and nothing else.
pub open spec fn whole(stream: Seq<u8>) -> bool {
    stream_of(deframe(stream)) == stream
}

/// Every frame that is read from a stream has a payload that fits a header.
pub proof fn lemma_deframed_fit(stream: Seq<u8>)
    ensures
        forall|i: int|
            0 <= i < deframe(stream).len() ==> (#[trigger] deframe(stream)[i]).1.len() <= u32::MAX,
    decreases stream.len(),
{
    if frame_complete(stream) {
        lemma_deframed_fit(after_first(stream));
        let rest = deframe(after_first(stream));
        assert forall|i: int| 0 <= i < deframe(stream).len() implies (#[trigger] deframe(
            stream,
        )[i]).1.len() <= u32::MAX by {
            if i > 0 {
                assert(deframe(stream)[i] == rest[i - 1]);
            }
        }
    }
}

/// Writing one more frame after some frames adds its bytes at the end.
pub proof fn lemma_stream_of_push(frames: Seq<(u32, Seq<u8>)>, opcode: u32, payload: Seq<u8>)
    ensures
        stream_of(frames.push((opcode, payload))) == stream_of(frames) + frame_bytes(
            opcode,
            payload,
        ),
    decreases frames.len(),
{
    let more = frames.push((opcode, payload));
    if frames.len() == 0 {
        assert(more.drop_first() =~= frames);
        assert(stream_of(more) =~= frame_bytes(opcode, payload) + stream_of(frames));
        assert(stream_of(frames) =~= Seq::<u8>::empty());
        assert(stream_of(more) =~= stream_of(frames) + frame_bytes(opcode, payload));
    } else {
        lemma_stream_of_push(frames.drop_first(), opcode, payload);
        assert(more.drop_first() =~= frames.drop_first().push((opcode, payload)));
        assert(more[0] == frames[0]);
        assert(stream_of(more) =~= stream_of(frames) + frame_bytes(opcode, payload));
    }
}

/// A whole frame added to a run of whole frames gives a run of whole
/// frames, and reading it gives the frames that were there and then the new
/// one, each as it went in.
pub proof fn lemma_append_frame(stream: Seq<u8>, opcode: u32, payload: Seq<u8>)
    requires
        whole(stream),
        payload.len() <= u32::MAX,
    ensures
        whole(stream + frame_bytes(opcode, payload)),
        deframe(stream + frame_bytes(opcode, payload)) == deframe(stream).push((opcode, payload)),
{
    let frames = deframe(stream);
    let more = frames.push((opcode, payload));
    lemma_deframed_fit(stream);
    lemma_stream_of_push(frames, opcode, payload);
    assert forall|i: int| 0 <= i < more.len() implies (#[trigger] more[i]).1.len() <= u32::MAX by {
        if i < frames.len() {
            assert(more[i] == frames[i]);
        }
    }
    lemma_whole_frames_read_back(more);
}

/// `String::from_utf8`: succeeds exactly on well-formed UTF-8, and the
/// string then holds the characters that the bytes encode.
#[verifier::external_body]
fn string_from_utf8(bytes: Vec<u8>) -> (text: Option<String>)
    ensures
        match text {
            Some(s) => valid_utf8(bytes@) && s@ == decode_utf8(bytes@),
            None => !valid_utf8(bytes@),
        },
{
    String::from_utf8(bytes).ok()
}

/// What `recv` returns for the first frame of a stream that starts with one.
pub open spec fn received(stream: Seq<u8>) -> Result<Option<(u32, Seq<char>)>, DiscordRPCError>
    recommends
        frame_complete(stream),
{
    if valid_utf8(first_payload(stream)) {
        Ok(Some((first_opcode(stream), decode_utf8(first_payload(stream)))))
    } else {
        Err(DiscordRPCError::DecodeError)
    }
}

/// The plain form of a received message: its opcode and the characters of
/// its payload.
pub open spec fn message_view(message: Result<Option<(u32, String)>, DiscordRPCError>) -> Result<
    Option<(u32, Seq<char>)>,
    DiscordRPCError,
> {
    match message {
        Ok(Some((opcode, payload))) => Ok(Some((opcode, payload@))),
        Ok(None) => Ok(None),
        Err(e) => Err(e),
    }
}

/// The reading and writing end of one connection, without the connection:
/// it holds the frames that were sent and not yet handed out for writing,
/// and the bytes that were read and not yet taken as frames.
pub struct DiscordIPCSocket {
    inbound: Vec<u8>,
    outbound: Vec<u8>,
}

impl DiscordIPCSocket {
    /// The queue never holds anything but whole frames.
    #[verifier::type_invariant]
    spec fn queue_is_whole(self) -> bool {
        whole(self.outbound@)
    }

    /// The bytes read so far that no `recv` has consumed.
    pub closed spec fn inbound(&self) -> Seq<u8> {
        self.inbound@
    }

    /// The bytes that wait to be written to the stream.
    pub closed spec fn outbound(&self) -> Seq<u8> {
        self.outbound@
    }

    /// The frames that a reader finds in the bytes that wait to be written.
    pub open spec fn queued(&self) -> Seq<(u32, Seq<u8>)> {
        deframe(self.outbound())
    }

    /// A socket that has read nothing and has nothing to write.
    pub fn new() -> (socket: Self)
        ensures
            socket.inbound() == Seq::<u8>::empty(),
            socket.outbound() == Seq::<u8>::empty(),
    {
        let socket = DiscordIPCSocket { inbound: Vec::new(), outbound: Vec::new() };
        assert(deframe(socket.outbound@) =~= Seq::<(u32, Seq<u8>)>::empty());
        socket
    }

    /// Queues one message for writing: the header for `opcode` and the
    /// payload's length in bytes, then the payload as UTF-8, all at the end
    /// of what is already queued.
    ///
    /// The frame goes into the queue whole or not at all, so a reader of the
    /// queued bytes finds the frames that were there before and then this
    /// one, with exactly this payload.
    ///
    /// Fails with `PayloadTooLarge`, and only then, when the payload is
    /// longer than a header can announce; the queue is then as it was.
    pub fn send(&mut self, payload: &str, opcode: u32) -> (sent: Result<(), DiscordRPCError>)
        ensures
            final(self).inbound() == old(self).inbound(),
            payload.spec_bytes().len() <= u32::MAX ==> {
                &&& sent is Ok
                &&& final(self).outbound() == old(self).outbound() + frame_bytes(
                    opcode,
                    payload.spec_bytes(),
                )
                &&& final(self).queued() == old(self).queued().push((opcode, payload.spec_bytes()))
            },
            payload.spec_bytes().len() > u32::MAX ==> {
                &&& sent == Err::<(), DiscordRPCError>(DiscordRPCError::PayloadTooLarge)
                &&& final(self).outbound() == old(self).outbound()
            },
    {
        proof {
            use_type_invariant(&*self);
        }
        let len = payload.as_bytes().len();
        if len > u32::MAX as usize {
            return Err(DiscordRPCError::PayloadTooLarge);
        }
        let mut frame = match pack(opcode, len as u32) {
            Ok(header) => header,
            Err(e) => { return Err(e); },
        };
        let mut body = payload.as_bytes_vec();
        frame.append(&mut body);
        proof {
            lemma_append_frame(self.outbound@, opcode, payload.spec_bytes());
        }
        let mut queue = self.take_queue();
        queue.append(&mut frame);
        self.outbound = queue;
        Ok(())
    }

    /// Hands out everything that waits to be written, in the order in which
    /// it was queued, and empties the queue. The caller writes the bytes to
    /// the stream, all of them, before it writes what a later call hands out.
    pub fn take_outbound(&mut self) -> (bytes: Vec<u8>)
        ensures
            bytes@ == old(self).outbound(),
            whole(bytes@),
            final(self).outbound() == Seq::<u8>::empty(),
            final(self).inbound() == old(self).inbound(),
    {
        proof {
            use_type_invariant(&*self);
        }
        self.take_queue()
    }

    /// Moves the queue out and leaves an empty one.
    fn take_queue(&mut self) -> (queue: Vec<u8>)
        ensures
            queue@ == old(self).outbound@,
            final(self).outbound@ == Seq::<u8>::empty(),
            final(self).inbound@ == old(self).inbound@,
    {
        let mut queue: Vec<u8> = Vec::new();
        assert(deframe(queue@) =~= Seq::<(u32, Seq<u8>)>::empty());
        std::mem::swap(&mut self.outbound, &mut queue);
        queue
    }

    /// Moves the bytes that were read out and leaves none.
    fn take_inbound(&mut self) -> (buffer: Vec<u8>)
        ensures
            buffer@ == old(self).inbound@,
            final(self).inbound@ == Seq::<u8>::empty(),
            final(self).outbound@ == old(self).outbound@,
    {
        proof {
            use_type_invariant(&*self);
        }
        let mut buffer: Vec<u8> = Vec::new();
        std::mem::swap(&mut self.inbound, &mut buffer);
        buffer
    }

    /// How many more bytes to read before `recv` can return a message: what
    /// is missing of the header, or else of the payload; zero when a whole
    /// frame is waiting.
    pub fn needed(&self) -> (count: u64)
        ensures
            count == missing(self.inbound()),
            count == 0 <==> frame_complete(self.inbound()),
    {
        let have = self.inbound.len();
        if have < 8 {
            return (8 - have) as u64;
        }
        assert(self.inbound@.subrange(0, 8).subrange(4, 8) =~= self.inbound@.subrange(4, 8));
        let length = read_le(&self.inbound, 4);
        let end: u64 = 8 + length as u64;
        if have as u64 >= end {
            0
        } else {
            end - have as u64
        }
    }

    /// Hands over bytes that were read from the stream, in the order read.
    pub fn push_bytes(&mut self, bytes: Vec<u8>)
        ensures
            final(self).inbound() == old(self).inbound() + bytes@,
            final(self).outbound() == old(self).outbound(),
    {
        proof {
            use_type_invariant(&*self);
        }
        let mut incoming = bytes;
        let mut buffer = self.take_inbound();
        buffer.append(&mut incoming);
        self.inbound = buffer;
    }

    /// Takes the first frame off the bytes handed over so far.
    ///
    /// - While no whole frame is there, returns `Ok(None)` and consumes
    ///   nothing.
    /// - Otherwise the frame is consumed, and only the frame. Its opcode and
    ///   payload are returned if the payload is UTF-8; if it is not, the
    ///   result is `DecodeError`.
    pub fn recv(&mut self) -> (message: Result<Option<(u32, String)>, DiscordRPCError>)
        ensures
            final(self).outbound() == old(self).outbound(),
            !frame_complete(old(self).inbound()) ==> message_view(message) == Ok::<
                Option<(u32, Seq<char>)>,
                DiscordRPCError,
            >(None) && final(self).inbound() == old(self).inbound(),
            frame_complete(old(self).inbound()) ==> message_view(message) == received(
                old(self).inbound(),
            ) && final(self).inbound() == after_first(old(self).inbound()),
    {
        proof {
            use_type_invariant(&*self);
        }
        if self.needed() != 0 {
            return Ok(None);
        }
        assert(self.inbound@.subrange(0, 8).subrange(0, 4) =~= self.inbound@.subrange(0, 4));
        assert(self.inbound@.subrange(0, 8).subrange(4, 8) =~= self.inbound@.subrange(4, 8));
        let opcode = read_le(&self.inbound, 0);
        let length = read_le(&self.inbound, 4);
        assert(length == header_length(self.inbound@.subrange(0, 8)));
        assert(8 + length <= self.inbound.len());
        let end: usize = 8 + length as usize;
        let mut frame = self.take_inbound();
        let rest = frame.split_off(end);
        let payload = frame.split_off(8);
        self.inbound = rest;
        assert(payload@ =~= first_payload(old(self).inbound()));
        assert(self.inbound@ =~= after_first(old(self).inbound()));
        match string_from_utf8(payload) {
            Some(text) => Ok(Some((opcode, text))),
            None => Err(DiscordRPCError::DecodeError),
        }
    }
}

/// A message that was sent comes back from `recv` as it was: bytes made by
/// `send` for `payload` under `opcode`, followed by anything, are received as
/// that opcode and that payload.
pub proof fn lemma_send_then_recv(opcode: u32, payload: Seq<char>, rest: Seq<u8>)
    requires
        encode_utf8(payload).len() <= u32::MAX,
    ensures
        frame_complete(frame_bytes(opcode, encode_utf8(payload)) + rest),
        received(frame_bytes(opcode, encode_utf8(payload)) + rest) == Ok::<
            Option<(u32, Seq<char>)>,
            DiscordRPCError,
        >(Some((opcode, payload))),
        after_first(frame_bytes(opcode, encode_utf8(payload)) + rest) == rest,
{
    lemma_first_frame(opcode, encode_utf8(payload), rest);
    encode_utf8_valid_utf8(payload);
    encode_utf8_decode_utf8(payload);
}

} // verus!
