//! The frames that the server and a zygote worker exchange over a stream socket.
//!
//! A frame is a header of nine bytes (payload length, message type, request id, both
//! numbers big-endian) followed by the payload.

use vstd::prelude::*;

verus! {

pub const HEADER_SIZE: usize = 9;

/// Server to worker: execute the code in the payload.
pub const MSG_RUN: u8 = 1;

/// Server to worker: kill the child of a request.
pub const MSG_KILL: u8 = 2;

/// Worker to server: bytes that a child wrote to its standard output.
pub const MSG_STDOUT: u8 = 3;

/// Worker to server: bytes that a child wrote to its standard error.
pub const MSG_STDERR: u8 = 4;

/// Worker to server: a child has ended; the payload holds its exit code.
pub const MSG_DONE: u8 = 5;

/// The four bytes of `n`, most significant first.
pub open spec fn be_bytes(n: nat) -> Seq<u8>
    recommends
        n < 0x1_0000_0000,
{
    seq![
        (n / 0x100_0000) as u8,
        (n / 0x1_0000 % 0x100) as u8,
        (n / 0x100 % 0x100) as u8,
        (n % 0x100) as u8,
    ]
}

/// The number whose four bytes, most significant first, are those at the start of `bytes`.
pub open spec fn be_value(bytes: Seq<u8>) -> nat
    recommends
        bytes.len() >= 4,
{
    (bytes[0] * 0x100_0000 + bytes[1] * 0x1_0000 + bytes[2] * 0x100 + bytes[3]) as nat
}

/// The two's complement reading of the same four bytes.
pub open spec fn be_signed_value(bytes: Seq<u8>) -> int
    recommends
        bytes.len() >= 4,
{
    if be_value(bytes) < 0x8000_0000 {
        be_value(bytes) as int
    } else {
        be_value(bytes) - 0x1_0000_0000
    }
}

/// A frame on the wire. The length field holds the payload's length modulo 2^32.
pub open spec fn frame_bytes(kind: u8, req_id: u32, payload: Seq<u8>) -> Seq<u8> {
    be_bytes(payload.len() % 0x1_0000_0000) + seq![kind] + be_bytes(req_id as nat) + payload
}

/// The contents of a frame.
#[verifier::ext_equal]
pub ghost struct FrameModel {
    pub kind: u8,
    pub req_id: u32,
    pub payload: Seq<u8>,
}

/// A received frame.
pub struct Frame {
    pub kind: u8,
    pub req_id: u32,
    pub payload: Vec<u8>,
}

impl View for Frame {
    type V = FrameModel;

    open spec fn view(&self) -> FrameModel {
        FrameModel { kind: self.kind, req_id: self.req_id, payload: self.payload@ }
    }
}

/// What a stretch of received bytes amounts to.
#[verifier::ext_equal]
pub ghost struct Decoded {
    /// The complete frames, in order.
    pub frames: Seq<FrameModel>,
    /// The bytes that belong to no complete frame yet.
    pub rest: Seq<u8>,
    /// Whether a header announced a payload above the limit; decoding stops there.
    pub oversized: bool,
}

/// Whether `n` is above the limit, if there is one.
pub open spec fn exceeds(limit: Option<nat>, n: nat) -> bool {
    match limit {
        Some(max) => n > max,
        None => false,
    }
}

pub open spec fn limit_model(limit: Option<usize>) -> Option<nat> {
    match limit {
        Some(max) => Some(max as nat),
        None => None,
    }
}

/// The frame at the start of `buf`, taken to be complete.
pub open spec fn first_frame(buf: Seq<u8>) -> FrameModel {
    FrameModel {
        kind: buf[4],
        req_id: be_value(buf.skip(5)) as u32,
        payload: buf.subrange(
            HEADER_SIZE as int,
            HEADER_SIZE + be_value(buf),
        ),
    }
}

/// The frames in `buf`.
pub open spec fn decoded(buf: Seq<u8>, limit: Option<nat>) -> Decoded
    decreases buf.len(),
{
    let none = Seq::<FrameModel>::empty();
    if buf.len() < HEADER_SIZE {
        Decoded { frames: none, rest: buf, oversized: false }
    } else if exceeds(limit, be_value(buf)) {
        Decoded { frames: none, rest: buf, oversized: true }
    } else if buf.len() < HEADER_SIZE + be_value(buf) {
        Decoded { frames: none, rest: buf, oversized: false }
    } else {
        let tail = decoded(buf.skip(HEADER_SIZE + be_value(buf)), limit);
        Decoded { frames: seq![first_frame(buf)] + tail.frames, ..tail }
    }
}

/// The four bytes of `n`, appended to `out`, most significant first.
fn push_be(out: &mut Vec<u8>, n: u32)
    ensures
        final(out)@ == old(out)@ + be_bytes(n as nat),
{
    out.push((n / 0x100_0000) as u8);
    out.push((n / 0x1_0000 % 0x100) as u8);
    out.push((n / 0x100 % 0x100) as u8);
    out.push((n % 0x100) as u8);
    assert(out@ =~= old(out)@ + be_bytes(n as nat));
}

/// Reads the four bytes at `at`, most significant first.
pub fn read_be(bytes: &Vec<u8>, at: usize) -> (res: u32)
    requires
        at + 4 <= bytes@.len(),
    ensures
        res == be_value(bytes@.skip(at as int)),
{
    let n = bytes.len();
    assert(at + 4 <= n);
    bytes[at] as u32 * 0x100_0000 + bytes[at + 1] as u32 * 0x1_0000 + bytes[at + 2] as u32 * 0x100
        + bytes[at + 3] as u32
}

/// Builds a frame.
pub fn encode_frame(msg_type: u8, req_id: u32, payload: &[u8]) -> (res: Vec<u8>)
    ensures
        res@ == frame_bytes(msg_type, req_id, payload@),
{
    let plen: u32 = (payload.len() as u64 % 0x1_0000_0000) as u32;
    let mut frame: Vec<u8> = Vec::new();
    push_be(&mut frame, plen);
    frame.push(msg_type);
    push_be(&mut frame, req_id);
    frame.extend_from_slice(payload);
    assert(frame@ =~= frame_bytes(msg_type, req_id, payload@));
    frame
}

/// What stands at the start of the received bytes.
pub enum NextFrame {
    /// No complete frame yet.
    More,
    /// A header that announces a payload above the limit.
    Oversized,
    /// A complete frame, which was taken out of the buffer.
    Complete(Frame),
}

/// Takes the first frame out of `buf`.
pub fn next_frame(buf: &mut Vec<u8>, limit: Option<usize>) -> (res: NextFrame)
    ensures
        match res {
            NextFrame::More => final(buf)@ == old(buf)@ && decoded(
                old(buf)@,
                limit_model(limit),
            ) == (Decoded {
                frames: Seq::<FrameModel>::empty(),
                rest: old(buf)@,
                oversized: false,
            }),
            NextFrame::Oversized => final(buf)@ == old(buf)@ && decoded(
                old(buf)@,
                limit_model(limit),
            ) == (Decoded {
                frames: Seq::<FrameModel>::empty(),
                rest: old(buf)@,
                oversized: true,
            }),
            NextFrame::Complete(frame) => {
                &&& final(buf)@.len() < old(buf)@.len()
                &&& final(buf)@ == old(buf)@.skip(HEADER_SIZE + frame.payload@.len())
                &&& decoded(old(buf)@, limit_model(limit)) == (Decoded {
                    frames: seq![frame@] + decoded(final(buf)@, limit_model(limit)).frames,
                    ..decoded(final(buf)@, limit_model(limit))
                })
            },
        },
{
    if buf.len() < HEADER_SIZE {
        return NextFrame::More;
    }
    let ghost before = buf@;
    assert(before.skip(0) =~= before);
    let plen: u32 = read_be(buf, 0);
    let kind = buf[4];
    let req_id = read_be(buf, 5);
    if let Some(max) = limit {
        if plen as u64 > max as u64 {
            return NextFrame::Oversized;
        }
    }
    if ((buf.len() - HEADER_SIZE) as u64) < plen as u64 {
        return NextFrame::More;
    }
    assert(HEADER_SIZE + plen <= buf.len());
    let end: usize = HEADER_SIZE + plen as usize;
    let rest = buf.split_off(end);
    let payload = buf.split_off(HEADER_SIZE);
    *buf = rest;
    assert(buf@ =~= before.skip(end as int));
    let frame = Frame { kind, req_id, payload };
    assert(frame@ =~= first_frame(before));
    NextFrame::Complete(frame)
}

/// The four bytes of a 32-bit number are read back as that number.
pub proof fn be_bytes_read_back(n: nat, rest: Seq<u8>)
    requires
        n < 0x1_0000_0000,
    ensures
        be_value(be_bytes(n) + rest) == n,
{
}

/// A frame whose payload fits the length field and the limit is decoded as what was
/// encoded, whatever follows it on the stream.
pub proof fn encoded_frame_decodes(
    kind: u8,
    req_id: u32,
    payload: Seq<u8>,
    following: Seq<u8>,
    limit: Option<nat>,
)
    requires
        payload.len() < 0x1_0000_0000,
        !exceeds(limit, payload.len()),
    ensures
        decoded(frame_bytes(kind, req_id, payload) + following, limit) == (Decoded {
            frames: seq![FrameModel { kind, req_id, payload }] + decoded(following, limit).frames,
            ..decoded(following, limit)
        }),
{
    let frame = frame_bytes(kind, req_id, payload);
    let buf = frame + following;
    let n = payload.len();
    assert(buf =~= be_bytes(n) + (seq![kind] + be_bytes(req_id as nat) + payload + following));
    be_bytes_read_back(n, seq![kind] + be_bytes(req_id as nat) + payload + following);
    assert(buf.skip(5) =~= be_bytes(req_id as nat) + (payload + following));
    be_bytes_read_back(req_id as nat, payload + following);
    assert(buf.skip(HEADER_SIZE + n) =~= following);
    assert(first_frame(buf) =~= FrameModel { kind, req_id, payload });
}

/// How a stream is cut into reads does not matter: decoding `first` and then, with the
/// bytes left over, `second` gives the frames of the two read at once.
pub proof fn decoding_in_parts(first: Seq<u8>, second: Seq<u8>, limit: Option<nat>)
    ensures
        ({
            let whole = decoded(first + second, limit);
            let part = decoded(first, limit);
            if part.oversized {
                whole.frames == part.frames && whole.oversized
            } else {
                let next = decoded(part.rest + second, limit);
                whole == Decoded { frames: part.frames + next.frames, ..next }
            }
        }),
    decreases first.len(),
{
    let none = Seq::<FrameModel>::empty();
    let both = first + second;
    if first.len() < HEADER_SIZE {
        assert(none + decoded(both, limit).frames =~= decoded(both, limit).frames);
    } else {
        let n = be_value(first);
        assert(be_value(both) == n);
        if exceeds(limit, n) {
        } else if first.len() < HEADER_SIZE + n {
            assert(none + decoded(both, limit).frames =~= decoded(both, limit).frames);
        } else {
            let tail = first.skip(HEADER_SIZE + n);
            assert(both.skip(HEADER_SIZE + n) =~= tail + second);
            assert(be_value(both.skip(5)) == be_value(first.skip(5)));
            assert(first_frame(both) =~= first_frame(first));
            decoding_in_parts(tail, second, limit);
            let part = decoded(tail, limit);
            if !part.oversized {
                let next = decoded(part.rest + second, limit);
                assert(seq![first_frame(first)] + (part.frames + next.frames) =~= (
                seq![first_frame(first)] + part.frames) + next.frames);
            }
        }
    }
}

/// The bytes of a sequence of frames.
pub open spec fn stream_bytes(frames: Seq<FrameModel>) -> Seq<u8>
    decreases frames.len(),
{
    if frames.len() == 0 {
        Seq::empty()
    } else {
        frame_bytes(frames[0].kind, frames[0].req_id, frames[0].payload) + stream_bytes(
            frames.skip(1),
        )
    }
}

/// Whether the payload of every frame fits the length field and the limit.
pub open spec fn frames_fit(frames: Seq<FrameModel>, limit: Option<nat>) -> bool {
    forall|i: int|
        0 <= i < frames.len() ==> (#[trigger] frames[i]).payload.len() < 0x1_0000_0000
            && !exceeds(limit, frames[i].payload.len())
}

/// A stream of frames is decoded as those frames, with nothing left over.
pub proof fn encoded_stream_decodes(frames: Seq<FrameModel>, limit: Option<nat>)
    requires
        frames_fit(frames, limit),
    ensures
        decoded(stream_bytes(frames), limit) == (Decoded {
            frames,
            rest: Seq::empty(),
            oversized: false,
        }),
    decreases frames.len(),
{
    if frames.len() == 0 {
        assert(decoded(stream_bytes(frames), limit).frames =~= frames);
    } else {
        let tail = frames.skip(1);
        assert forall|i: int| 0 <= i < tail.len() implies (#[trigger] tail[i]).payload.len()
            < 0x1_0000_0000 && !exceeds(limit, tail[i].payload.len()) by {
            assert(tail[i] == frames[i + 1]);
        }
        encoded_stream_decodes(tail, limit);
        let first = frames[0];
        encoded_frame_decodes(
            first.kind,
            first.req_id,
            first.payload,
            stream_bytes(tail),
            limit,
        );
        assert(seq![first] + tail =~= frames);
    }
}

/// Under a limit, what is left over of a stream is less than one frame of the largest size:
/// however much a worker sends, no more than that has to be kept for the next read.
pub proof fn leftover_is_bounded(buf: Seq<u8>, max: nat)
    ensures
        !decoded(buf, Some(max)).oversized ==> decoded(buf, Some(max)).rest.len() < HEADER_SIZE
            + max,
    decreases buf.len(),
{
    if buf.len() >= HEADER_SIZE && be_value(buf) <= max && buf.len() >= HEADER_SIZE + be_value(
        buf,
    ) {
        leftover_is_bounded(buf.skip(HEADER_SIZE + be_value(buf)), max);
    }
}

/// Without a limit no frame is above it.
pub proof fn unlimited_is_never_oversized(buf: Seq<u8>)
    ensures
        !decoded(buf, None).oversized,
    decreases buf.len(),
{
    if buf.len() >= HEADER_SIZE + be_value(buf) {
        unlimited_is_never_oversized(buf.skip(HEADER_SIZE + be_value(buf)));
    }
}

/// A frame is four bytes of length, one of type, four of request id, all numbers most
/// significant byte first, and the payload as it is.
pub proof fn frames_are_laid_out(kind: u8, req_id: u32, payload: Seq<u8>)
    ensures
        ({
            let f = frame_bytes(kind, req_id, payload);
            &&& f.len() == 9 + payload.len()
            &&& payload.len() < 0x1_0000_0000 ==> f[0] * 16777216 + f[1] * 65536 + f[2] * 256
                + f[3] == payload.len()
            &&& f[4] == kind
            &&& f[5] * 16777216 + f[6] * 65536 + f[7] * 256 + f[8] == req_id
            &&& f.skip(9) == payload
        }),
{
    let f = frame_bytes(kind, req_id, payload);
    be_bytes_read_back(payload.len() % 0x1_0000_0000, Seq::empty());
    be_bytes_read_back(req_id as nat, Seq::empty());
    let n = be_bytes(payload.len() % 0x1_0000_0000) + Seq::<u8>::empty();
    let id = be_bytes(req_id as nat) + Seq::<u8>::empty();
    assert(f[0] == n[0] && f[1] == n[1] && f[2] == n[2] && f[3] == n[3]);
    assert(f[5] == id[0] && f[6] == id[1] && f[7] == id[2] && f[8] == id[3]);
    assert(f.skip(9) =~= payload);
}

/// What stands at the start of a stream decides: less than a header waits for more; a
/// length above the limit ends the stream there; a payload that is not complete waits for
/// more; and a complete frame is taken out, by its length, type and id.
pub proof fn streams_are_cut_by_their_lengths(buf: Seq<u8>, limit: Option<nat>)
    ensures
        ({
            let n = buf[0] * 16777216 + buf[1] * 65536 + buf[2] * 256 + buf[3];
            let above = limit matches Some(max) && n > max;
            let d = decoded(buf, limit);
            &&& buf.len() < 9 ==> d.frames.len() == 0 && d.rest == buf && !d.oversized
            &&& buf.len() >= 9 && above ==> d.frames.len() == 0 && d.rest == buf && d.oversized
            &&& buf.len() >= 9 && !above && buf.len() < 9 + n ==> d.frames.len() == 0 && d.rest
                == buf && !d.oversized
            &&& buf.len() >= 9 && !above && buf.len() >= 9 + n ==> {
                let next = decoded(buf.skip(9 + n), limit);
                &&& d.frames.len() == 1 + next.frames.len()
                &&& d.frames[0].kind == buf[4]
                &&& d.frames[0].req_id == buf[5] * 16777216 + buf[6] * 65536 + buf[7] * 256
                    + buf[8]
                &&& d.frames[0].payload == buf.subrange(9, 9 + n)
                &&& d.frames.skip(1) == next.frames
                &&& d.rest == next.rest
                &&& d.oversized == next.oversized
            }
        }),
{
    let n = buf[0] * 16777216 + buf[1] * 65536 + buf[2] * 256 + buf[3];
    assert(be_value(buf) == n);
    if buf.len() >= 9 && !exceeds(limit, be_value(buf)) && buf.len() >= 9 + n {
        let next = decoded(buf.skip(9 + n), limit);
        let d = decoded(buf, limit);
        let id = buf.skip(5);
        assert(id[0] == buf[5] && id[1] == buf[6] && id[2] == buf[7] && id[3] == buf[8]);
        assert(d.frames.skip(1) =~= next.frames);
    }
}

/// Four bytes whose first is 128 or more stand for a negative number: theirs minus 2^32.
pub proof fn exit_codes_are_twos_complement(bytes: Seq<u8>)
    requires
        bytes.len() >= 4,
    ensures
        ({
            let n = bytes[0] * 16777216 + bytes[1] * 65536 + bytes[2] * 256 + bytes[3];
            be_signed_value(bytes) == if bytes[0] >= 128 {
                n - 4294967296
            } else {
                n as int
            }
        }),
{
}

/// The messages of the protocol are told apart by these types.
pub proof fn message_types_are_those_of_the_worker()
    ensures
        MSG_RUN == 1 && MSG_KILL == 2 && MSG_STDOUT == 3 && MSG_STDERR == 4 && MSG_DONE == 5,
{
}

/// What is encoded is the frame, byte by byte.
pub proof fn frames_are_encoded(msg_type: u8, req_id: u32, payload: &[u8], res: Vec<u8>)
    requires
        payload@.len() < 0x1_0000_0000,
        call_ensures(encode_frame, (msg_type, req_id, payload), res),
    ensures
        res@.len() == 9 + payload@.len(),
        res@[0] * 16777216 + res@[1] * 65536 + res@[2] * 256 + res@[3] == payload@.len(),
        res@[4] == msg_type,
        res@[5] * 16777216 + res@[6] * 65536 + res@[7] * 256 + res@[8] == req_id,
        res@.skip(9) == payload@,
{
    frames_are_laid_out(msg_type, req_id, payload@);
}

/// The first complete frame is taken out of the buffer, as what its bytes say, and what
/// follows it stays.
pub proof fn frames_are_taken_out(buf: &mut Vec<u8>, limit: Option<usize>, res: NextFrame)
    requires
        call_ensures(next_frame, (buf, limit), res),
    ensures
        ({
            let b = old(buf)@;
            let n = b[0] * 16777216 + b[1] * 65536 + b[2] * 256 + b[3];
            let above = limit matches Some(max) && n > max;
            &&& res is More <==> b.len() < 9 || (!above && b.len() < 9 + n)
            &&& res is Oversized <==> b.len() >= 9 && above
            &&& !(res is Complete) ==> final(buf)@ == b
            &&& res matches NextFrame::Complete(frame) ==> {
                &&& frame.kind == b[4]
                &&& frame.req_id == b[5] * 16777216 + b[6] * 65536 + b[7] * 256 + b[8]
                &&& frame.payload@ == b.subrange(9, 9 + n)
                &&& final(buf)@ == b.skip(9 + n)
            }
        }),
{
    let b = old(buf)@;
    streams_are_cut_by_their_lengths(b, limit_model(limit));
    let d = decoded(b, limit_model(limit));
    if let NextFrame::Complete(frame) = res {
        assert(d.frames[0] == frame@);
    }
}

} // verus!
