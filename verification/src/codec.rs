//! The wire format of frames: an 8-byte little-endian header followed by
//! the payload, and the codec that cuts frames out of a byte stream and
//! appends them to one.

use vstd::prelude::*;
use bytes::BytesMut;
use crate::buf::{
    bytes_view, bytes_mut_view, bytes_empty, bytes_len, bytes_as_slice, bytes_mut_len,
    bytes_mut_as_slice, bytes_mut_reserve, bytes_mut_extend, bytes_mut_advance,
    bytes_mut_split_to, bytes_mut_freeze,
};
use crate::command::{Command, spec_cmd_byte, spec_cmd_from_byte};
use crate::config::Config;
use crate::error::SmuxError;
use crate::frame::{Frame, FrameFault, HEADER_SIZE, frame_fault, fault_error};

verus! {

/// The little-endian 16-bit number at `i`.
pub open spec fn le16(b: Seq<u8>, i: int) -> nat {
    (b[i] + 256 * b[i + 1]) as nat
}

/// The little-endian 32-bit number at `i`.
pub open spec fn le32(b: Seq<u8>, i: int) -> nat {
    (b[i] + 256 * b[i + 1] + 65536 * b[i + 2] + 16777216 * b[i + 3]) as nat
}

/// The two little-endian bytes of `v`.
pub open spec fn le16_bytes(v: u16) -> Seq<u8> {
    seq![(v % 256) as u8, ((v / 256) % 256) as u8]
}

/// The four little-endian bytes of `v`.
pub open spec fn le32_bytes(v: u32) -> Seq<u8> {
    seq![
        (v % 256) as u8,
        ((v / 256) % 256) as u8,
        ((v / 65536) % 256) as u8,
        ((v / 16777216) % 256) as u8,
    ]
}

/// A frame header: version, command byte, payload length, stream id.
pub open spec fn header_bytes(version: u8, cmd: u8, length: u16, stream_id: u32) -> Seq<u8> {
    seq![version, cmd] + le16_bytes(length) + le32_bytes(stream_id)
}

/// The payload written for a frame: the two counters of an update from
/// version 2 on, the frame's data otherwise.
pub open spec fn encoded_payload(f: Frame) -> Seq<u8> {
    if (f.cmd is Upd) && f.version >= 2 {
        le32_bytes(f.cmd->consumed) + le32_bytes(f.cmd->window)
    } else {
        f.payload()
    }
}

/// The largest payload the 16-bit length field can announce.
pub const MAX_PAYLOAD_LEN: usize = 65535;

/// The length field written for a frame: the payload length (encoding
/// refuses payloads that do not fit its 16 bits).
pub open spec fn encoded_length(f: Frame) -> u16 {
    encoded_payload(f).len() as u16
}

/// The bytes that encoding a frame appends.
pub open spec fn spec_encode(f: Frame) -> Seq<u8> {
    header_bytes(f.version, spec_cmd_byte(f.cmd), encoded_length(f), f.stream_id)
        + encoded_payload(f)
}

/// Header plus payload length announced by a buffer's header.
pub open spec fn wire_total(b: Seq<u8>) -> nat {
    (HEADER_SIZE + le16(b, 2)) as nat
}

/// The payload of the frame at the front of a buffer.
pub open spec fn wire_payload(b: Seq<u8>) -> Seq<u8> {
    b.subrange(HEADER_SIZE as int, wire_total(b) as int)
}

/// Whether the frame at the front is an update whose counters are in its payload.
pub open spec fn wire_is_upd_v2(b: Seq<u8>) -> bool {
    (spec_cmd_from_byte(b[1]) matches Some(c) && c is Upd) && b[0] >= 2
}

/// The command of the frame at the front, counters included.
pub open spec fn wire_cmd(b: Seq<u8>) -> Command {
    if wire_is_upd_v2(b) {
        Command::Upd {
            consumed: le32(wire_payload(b), 0) as u32,
            window: le32(wire_payload(b), 4) as u32,
        }
    } else {
        spec_cmd_from_byte(b[1]).unwrap()
    }
}

/// The data the decoded frame carries: none for an update.
pub open spec fn wire_data(b: Seq<u8>) -> Seq<u8> {
    if wire_cmd(b) is Upd {
        Seq::empty()
    } else {
        wire_payload(b)
    }
}

/// What decoding the front of a buffer gives.
pub enum Decoded {
    /// Not a whole frame yet; nothing is consumed.
    NeedMore,
    /// The command byte names no command; nothing is consumed.
    BadCommand,
    /// The announced frame exceeds the limit; nothing is consumed.
    TooLarge { size: usize, max: usize },
    /// An update payload that is not 8 bytes long; the frame is consumed.
    BadUpdPayload,
    /// The frame breaks a protocol rule; the frame is consumed.
    Rejected(FrameFault),
    /// A frame, and the number of bytes it took.
    Frame { version: u8, cmd: Command, stream_id: u32, data: Seq<u8>, used: nat },
}

/// Decoding the front of buffer `b` under frame-size limit `max`.
pub open spec fn spec_decode(b: Seq<u8>, max: usize) -> Decoded {
    if b.len() < HEADER_SIZE {
        Decoded::NeedMore
    } else if spec_cmd_from_byte(b[1]) is None {
        Decoded::BadCommand
    } else if wire_total(b) > max {
        Decoded::TooLarge { size: wire_total(b) as usize, max }
    } else if b.len() < wire_total(b) {
        Decoded::NeedMore
    } else if wire_is_upd_v2(b) && le16(b, 2) != 8 {
        Decoded::BadUpdPayload
    } else if frame_fault(b[0], wire_cmd(b), le32(b, 4) as u32, wire_data(b).len(), max) is Some {
        Decoded::Rejected(frame_fault(b[0], wire_cmd(b), le32(b, 4) as u32, wire_data(b).len(), max).unwrap())
    } else {
        Decoded::Frame {
            version: b[0],
            cmd: wire_cmd(b),
            stream_id: le32(b, 4) as u32,
            data: wire_data(b),
            used: wire_total(b),
        }
    }
}

/// The outcome `decode` owes for buffer `b` (before) and `after`.
pub open spec fn decode_outcome(
    b: Seq<u8>,
    max: usize,
    r: Result<Option<Frame>, SmuxError>,
    after: Seq<u8>,
) -> bool {
    match spec_decode(b, max) {
        Decoded::NeedMore => r matches Ok(None) && after == b,
        Decoded::BadCommand => r matches Err(e) && e is InvalidFrame && after == b,
        Decoded::TooLarge { size, max } => r matches Err(e) && e == (SmuxError::FrameTooLarge {
            size,
            max,
        }) && after == b,
        Decoded::BadUpdPayload => r matches Err(e) && e matches SmuxError::ProtocolViolation(m)
            && m@ == "UPD frame must have exactly 8 bytes of data"@ && after == b.skip(
            wire_total(b) as int,
        ),
        Decoded::Rejected(f) => r matches Err(e) && fault_error(f, e) && after == b.skip(
            wire_total(b) as int,
        ),
        Decoded::Frame { version, cmd, stream_id, data, used } => r matches Ok(Some(fr))
            && fr.version == version && fr.cmd == cmd && fr.stream_id == stream_id
            && fr.payload() == data && after == b.skip(used as int),
    }
}

/// The outcome `encode` owes for frame `f`, appended to `b`, giving `after`.
pub open spec fn encode_outcome(
    f: Frame,
    max: usize,
    b: Seq<u8>,
    r: Result<(), SmuxError>,
    after: Seq<u8>,
) -> bool {
    match f.fault(max) {
        Some(ft) => r matches Err(e) && fault_error(ft, e) && after == b,
        None => if encoded_payload(f).len() > MAX_PAYLOAD_LEN {
            r matches Err(e) && e == (SmuxError::FrameTooLarge {
                size: (HEADER_SIZE + encoded_payload(f).len()) as usize,
                max: (HEADER_SIZE + MAX_PAYLOAD_LEN) as usize,
            }) && after == b
        } else if HEADER_SIZE + encoded_payload(f).len() > max {
            r matches Err(e) && e == (SmuxError::FrameTooLarge {
                size: (HEADER_SIZE + encoded_payload(f).len()) as usize,
                max,
            }) && after == b
        } else {
            r is Ok && after == b + spec_encode(f)
        },
    }
}

fn read_u16_le(s: &[u8], i: usize) -> (v: u16)
    requires
        i + 2 <= s@.len(),
    ensures
        v == le16(s@, i as int),
{
    (s[i] as u16) + (s[i + 1] as u16) * 256
}

fn read_u32_le(s: &[u8], i: usize) -> (v: u32)
    requires
        i + 4 <= s@.len(),
    ensures
        v == le32(s@, i as int),
{
    (s[i] as u32) + (s[i + 1] as u32) * 256 + (s[i + 2] as u32) * 65536 + (s[i + 3] as u32)
        * 16777216
}

fn push_u16_le(v: &mut Vec<u8>, x: u16)
    ensures
        final(v)@ == old(v)@ + le16_bytes(x),
{
    v.push((x % 256) as u8);
    v.push(((x / 256) % 256) as u8);
}

fn push_u32_le(v: &mut Vec<u8>, x: u32)
    ensures
        final(v)@ == old(v)@ + le32_bytes(x),
{
    v.push((x % 256) as u8);
    v.push(((x / 256) % 256) as u8);
    v.push(((x / 65536) % 256) as u8);
    v.push(((x / 16777216) % 256) as u8);
}

/// Reading back two little-endian bytes gives the number written.
pub proof fn lemma_le16_roundtrip(v: u16, rest: Seq<u8>)
    ensures
        le16(le16_bytes(v) + rest, 0) == v,
{
    let b = le16_bytes(v) + rest;
    assert(b[0] == (v % 256) as u8 && b[1] == ((v / 256) % 256) as u8);
    assert((v % 256) as u8 + 256 * (((v / 256) % 256) as u8) == v) by (bit_vector);
}

/// Reading back four little-endian bytes gives the number written.
pub proof fn lemma_le32_roundtrip(v: u32, rest: Seq<u8>)
    ensures
        le32(le32_bytes(v) + rest, 0) == v,
{
    let b = le32_bytes(v) + rest;
    assert(b[0] == (v % 256) as u8 && b[1] == ((v / 256) % 256) as u8 && b[2] == ((v / 65536)
        % 256) as u8 && b[3] == ((v / 16777216) % 256) as u8);
    assert((v % 256) as u8 + 256 * (((v / 256) % 256) as u8) + 65536 * (((v / 65536) % 256) as u8)
        + 16777216 * (((v / 16777216) % 256) as u8) == v) by (bit_vector);
}

/// The fields of a header read back as written.
pub proof fn lemma_header_roundtrip(version: u8, cmd: u8, length: u16, stream_id: u32, rest: Seq<u8>)
    ensures
        ({
            let b = header_bytes(version, cmd, length, stream_id) + rest;
            &&& b.len() == HEADER_SIZE + rest.len()
            &&& b[0] == version
            &&& b[1] == cmd
            &&& le16(b, 2) == length
            &&& le32(b, 4) == stream_id
            &&& b.skip(HEADER_SIZE as int) == rest
        }),
{
    let b = header_bytes(version, cmd, length, stream_id) + rest;
    lemma_le16_roundtrip(length, le32_bytes(stream_id) + rest);
    lemma_le32_roundtrip(stream_id, rest);
    assert(b.skip(2) =~= le16_bytes(length) + (le32_bytes(stream_id) + rest));
    assert(b.skip(4) =~= le32_bytes(stream_id) + rest);
    assert(b.skip(HEADER_SIZE as int) =~= rest);
    assert(le16(b, 2) == le16(b.skip(2), 0));
    assert(le32(b, 4) == le32(b.skip(4), 0));
}

/// Encoding then decoding gives the frame back: for every frame that
/// `encode` accepts (it keeps the protocol rules, its payload fits the
/// 16-bit length field and its encoding fits the frame-size limit),
/// decoding its encoding followed by any further bytes yields that frame
/// and consumes exactly its encoding.
pub proof fn lemma_encode_decode_roundtrip(f: Frame, max: usize, rest: Seq<u8>)
    requires
        f.fault(max) is None,
        encoded_payload(f).len() <= MAX_PAYLOAD_LEN,
        HEADER_SIZE + encoded_payload(f).len() <= max,
    ensures
        spec_decode(spec_encode(f) + rest, max) == (Decoded::Frame {
            version: f.version,
            cmd: f.cmd,
            stream_id: f.stream_id,
            data: f.payload(),
            used: spec_encode(f).len(),
        }),
{
    let p = encoded_payload(f);
    let b = spec_encode(f) + rest;
    let h = header_bytes(f.version, spec_cmd_byte(f.cmd), encoded_length(f), f.stream_id);
    assert(encoded_length(f) == p.len());
    assert(b =~= h + (p + rest));
    lemma_header_roundtrip(f.version, spec_cmd_byte(f.cmd), encoded_length(f), f.stream_id, p + rest);
    crate::command::lemma_command_byte_roundtrip(f.cmd);
    assert(wire_total(b) == HEADER_SIZE + p.len());
    assert(wire_payload(b) =~= p);
    if f.cmd is Upd {
        let c = f.cmd->consumed;
        let w = f.cmd->window;
        lemma_le32_roundtrip(c, le32_bytes(w));
        lemma_le32_roundtrip(w, Seq::empty());
        assert(p =~= le32_bytes(c) + le32_bytes(w));
        assert(p.skip(4) =~= le32_bytes(w) + Seq::<u8>::empty());
        assert(le32(p, 4) == le32(p.skip(4), 0));
        assert(wire_cmd(b) == f.cmd);
        assert(wire_data(b) =~= f.payload());
    } else {
        assert(spec_cmd_from_byte(b[1]) == Some(f.cmd));
        assert(wire_cmd(b) == f.cmd);
    }
    assert(spec_encode(f).len() == HEADER_SIZE + p.len());
}

/// Decoding hands out only frames that keep the protocol rules under the
/// limit, and consumes exactly the header and payload it announced.
pub proof fn lemma_decoded_frames_are_valid(b: Seq<u8>, max: usize)
    ensures
        spec_decode(b, max) matches Decoded::Frame { version, cmd, stream_id, data, used } ==> (
            frame_fault(version, cmd, stream_id, data.len(), max) is None
            && used == HEADER_SIZE + le16(b, 2) && used <= b.len() && used <= max),
{
}

/// A buffer holding only part of a valid frame's encoding asks for more
/// bytes and consumes nothing.
pub proof fn lemma_partial_frame_needs_more(f: Frame, max: usize, k: nat)
    requires
        f.fault(max) is None,
        encoded_payload(f).len() <= MAX_PAYLOAD_LEN,
        HEADER_SIZE + encoded_payload(f).len() <= max,
        k < spec_encode(f).len(),
    ensures
        spec_decode(spec_encode(f).take(k as int), max) == Decoded::NeedMore,
{
    let e = spec_encode(f);
    let b = e.take(k as int);
    if k >= HEADER_SIZE {
        let p = encoded_payload(f);
        let h = header_bytes(f.version, spec_cmd_byte(f.cmd), encoded_length(f), f.stream_id);
        assert(e =~= h + p);
        lemma_header_roundtrip(f.version, spec_cmd_byte(f.cmd), encoded_length(f), f.stream_id, p);
        crate::command::lemma_command_byte_roundtrip(f.cmd);
        assert(b[1] == e[1]);
        assert(b[2] == e[2] && b[3] == e[3]);
        assert(le16(b, 2) == le16(e, 2));
        assert(wire_total(b) == e.len());
    }
}

/// Cuts frames out of a byte stream and appends them to one, under a
/// configuration's frame-size limit.
#[derive(Debug)]
pub struct Codec {
    config: Config,
    max_frame_size: usize,
}

impl Codec {
    #[verifier::type_invariant]
    spec fn inv(self) -> bool {
        self.max_frame_size == self.config.max_frame_size
    }

    /// The frame-size limit the codec enforces.
    pub closed spec fn frame_limit(&self) -> usize {
        self.max_frame_size
    }

    /// A codec for a configuration.
    pub fn new(config: Config) -> (c: Codec)
        ensures
            c.frame_limit() == config.max_frame_size,
    {
        let max_frame_size = config.max_frame_size;
        Codec { config, max_frame_size }
    }

    /// Reads the header at the front of `s`: version, command, stream id,
    /// payload length.
    fn decode_header(s: &[u8]) -> (r: Result<(u8, Command, u32, u16), SmuxError>)
        ensures
            s@.len() < HEADER_SIZE ==> (r matches Err(e) && e is InsufficientData),
            s@.len() >= HEADER_SIZE && spec_cmd_from_byte(s@[1]) is None ==> (r matches Err(e)
                && e is InvalidFrame),
            s@.len() >= HEADER_SIZE && spec_cmd_from_byte(s@[1]) is Some ==> (r matches Ok(
                (v, c2, id, len),
            ) && v == s@[0] && c2 == spec_cmd_from_byte(s@[1]).unwrap() && id == le32(s@, 4)
                && len == le16(s@, 2)),
    {
        if s.len() < HEADER_SIZE {
            return Err(SmuxError::InsufficientData);
        }
        let version = s[0];
        let cmd_byte = s[1];
        let length = read_u16_le(s, 2);
        let stream_id = read_u32_le(s, 4);
        match Command::from_byte(cmd_byte) {
            Ok(cmd) => Ok((version, cmd, stream_id, length)),
            Err(e) => Err(e),
        }
    }

    /// Appends a header to `dst`.
    fn encode_header(dst: &mut BytesMut, version: u8, cmd: Command, stream_id: u32, length: u16)
        requires
            bytes_mut_view(*old(dst)).len() + HEADER_SIZE <= isize::MAX,
        ensures
            bytes_mut_view(*final(dst)) == bytes_mut_view(*old(dst)) + header_bytes(
                version,
                spec_cmd_byte(cmd),
                length,
                stream_id,
            ),
    {
        let mut h: Vec<u8> = Vec::new();
        h.push(version);
        h.push(cmd.to_byte());
        push_u16_le(&mut h, length);
        push_u32_le(&mut h, stream_id);
        assert(h@ =~= header_bytes(version, spec_cmd_byte(cmd), length, stream_id));
        bytes_mut_extend(dst, h.as_slice());
    }

    /// Takes the frame at the front of `src`, if the buffer holds a whole one.
    /// A partial frame gives `Ok(None)` and leaves the buffer as it is; an
    /// unknown command or an oversized frame is refused without consuming
    /// anything; a frame that is read but breaks a rule is consumed and
    /// refused.
    pub fn decode(&mut self, src: &mut BytesMut) -> (r: Result<Option<Frame>, SmuxError>)
        ensures
            decode_outcome(
                bytes_mut_view(*old(src)),
                old(self).frame_limit(),
                r,
                bytes_mut_view(*final(src)),
            ),
            final(self).frame_limit() == old(self).frame_limit(),
    {
        proof {
            use_type_invariant(&*self);
        }
        let ghost b = bytes_mut_view(*src);
        let n = bytes_mut_len(src);
        if n < HEADER_SIZE {
            return Ok(None);
        }
        let (version, cmd, stream_id, length) = match Self::decode_header(bytes_mut_as_slice(src)) {
            Ok(h) => h,
            Err(e) => return Err(e),
        };
        let total_frame_size = HEADER_SIZE + length as usize;
        if total_frame_size > self.max_frame_size {
            return Err(SmuxError::FrameTooLarge { size: total_frame_size, max: self.max_frame_size });
        }
        if n < total_frame_size {
            bytes_mut_reserve(src, total_frame_size - n);
            return Ok(None);
        }
        bytes_mut_advance(src, HEADER_SIZE);
        let data_bytes = bytes_mut_split_to(src, length as usize);
        let data = bytes_mut_freeze(data_bytes);
        proof {
            assert(bytes_view(data) =~= wire_payload(b));
            assert(bytes_mut_view(*src) =~= b.skip(wire_total(b) as int));
        }
        let is_upd_v2 = match cmd {
            Command::Upd { .. } => version >= 2,
            _ => false,
        };
        let final_cmd = if is_upd_v2 {
            match Self::decode_upd_data(bytes_as_slice(&data)) {
                Ok((consumed, window)) => Command::Upd { consumed, window },
                Err(e) => return Err(e),
            }
        } else {
            cmd
        };
        let frame_data = match final_cmd {
            Command::Upd { .. } => bytes_empty(),
            _ => data,
        };
        let frame = Frame::new(version, final_cmd, stream_id, frame_data);
        proof {
            assert(frame.payload() =~= wire_data(b));
        }
        match frame.validate(&self.config) {
            Ok(()) => Ok(Some(frame)),
            Err(e) => Err(e),
        }
    }

    /// Appends the encoding of `frame` to `dst`: the header, then the
    /// payload (the two counters for an update from version 2 on). The
    /// frame is first checked against the protocol rules; a payload longer
    /// than the length field can announce, or a frame over the limit, is
    /// refused and nothing is appended.
    pub fn encode(&mut self, frame: Frame, dst: &mut BytesMut) -> (r: Result<(), SmuxError>)
        requires
            bytes_mut_view(*old(dst)).len() + frame.payload().len() + 16 <= isize::MAX,
        ensures
            encode_outcome(
                frame,
                old(self).frame_limit(),
                bytes_mut_view(*old(dst)),
                r,
                bytes_mut_view(*final(dst)),
            ),
            final(self).frame_limit() == old(self).frame_limit(),
    {
        proof {
            use_type_invariant(&*self);
        }
        match frame.validate(&self.config) {
            Ok(()) => {},
            Err(e) => return Err(e),
        }
        let is_upd_v2 = match frame.cmd {
            Command::Upd { .. } => frame.version >= 2,
            _ => false,
        };
        let upd_data: Vec<u8> = match frame.cmd {
            Command::Upd { consumed, window } => Self::encode_upd_data(consumed, window),
            _ => Vec::new(),
        };
        let data_to_encode: &[u8] = if is_upd_v2 {
            upd_data.as_slice()
        } else {
            bytes_as_slice(&frame.data)
        };
        let n = data_to_encode.len();
        proof {
            assert(data_to_encode@ == encoded_payload(frame));
        }
        if n > MAX_PAYLOAD_LEN {
            return Err(SmuxError::FrameTooLarge { size: HEADER_SIZE + n, max: HEADER_SIZE + MAX_PAYLOAD_LEN });
        }
        let length = n as u16;
        let total_size = HEADER_SIZE + length as usize;
        if total_size > self.max_frame_size {
            return Err(SmuxError::FrameTooLarge { size: total_size, max: self.max_frame_size });
        }
        bytes_mut_reserve(dst, total_size);
        Self::encode_header(dst, frame.version, frame.cmd, frame.stream_id, length);
        bytes_mut_extend(dst, data_to_encode);
        proof {
            assert(bytes_mut_view(*dst) =~= bytes_mut_view(*old(dst)) + spec_encode(frame));
        }
        Ok(())
    }

    /// Reads the two counters of an update payload, which must be exactly
    /// 8 bytes long.
    fn decode_upd_data(data: &[u8]) -> (r: Result<(u32, u32), SmuxError>)
        ensures
            data@.len() != 8 ==> (r matches Err(e) && e matches SmuxError::ProtocolViolation(m)
                && m@ == "UPD frame must have exactly 8 bytes of data"@),
            data@.len() == 8 ==> (r matches Ok((c, w)) && c == le32(data@, 0) && w == le32(
                data@,
                4,
            )),
    {
        if data.len() != 8 {
            return Err(
                SmuxError::ProtocolViolation("UPD frame must have exactly 8 bytes of data".to_owned()),
            );
        }
        let consumed = read_u32_le(data, 0);
        let window = read_u32_le(data, 4);
        Ok((consumed, window))
    }

    /// The 8-byte payload of an update: consumed, then window, little-endian.
    fn encode_upd_data(consumed: u32, window: u32) -> (v: Vec<u8>)
        ensures
            v@ == le32_bytes(consumed) + le32_bytes(window),
    {
        let mut v: Vec<u8> = Vec::new();
        push_u32_le(&mut v, consumed);
        push_u32_le(&mut v, window);
        v
    }
}

impl Clone for Codec {
    fn clone(&self) -> (c: Codec)
        ensures
            c == *self,
    {
        proof {
            use_type_invariant(self);
        }
        Codec { config: self.config, max_frame_size: self.max_frame_size }
    }
}

} // verus!
