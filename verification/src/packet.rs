//! Blaze packet framing: the fixed header that precedes every packet and
//! the codec that splits a byte stream into packets.
use vstd::prelude::*;

verus! {

/// Type of a frame.
#[derive(Debug, Clone, Copy, PartialEq, Eq, Structural)]
pub enum FrameType {
    /// Request to a server
    Request,
    /// Response to a request
    Response,
    /// Async notification from the server
    Notify,
    /// Error response from the server
    Error,
}

impl FrameType {
    /// The wire value of the frame type.
    pub open spec fn spec_value(self) -> u8 {
        match self {
            FrameType::Request => 0,
            FrameType::Response => 1,
            FrameType::Notify => 2,
            FrameType::Error => 3,
        }
    }

    /// The frame type for a wire value; unknown values are requests.
    pub open spec fn spec_from_value(value: u8) -> FrameType {
        if value == 1 {
            FrameType::Response
        } else if value == 2 {
            FrameType::Notify
        } else if value == 3 {
            FrameType::Error
        } else {
            FrameType::Request
        }
    }

    pub fn value(&self) -> (r: u8)
        ensures
            r == self.spec_value(),
    {
        match self {
            FrameType::Request => 0,
            FrameType::Response => 1,
            FrameType::Notify => 2,
            FrameType::Error => 3,
        }
    }

    pub fn from_value(value: u8) -> (r: FrameType)
        ensures
            r == FrameType::spec_from_value(value),
    {
        if value == 1 {
            FrameType::Response
        } else if value == 2 {
            FrameType::Notify
        } else if value == 3 {
            FrameType::Error
        } else {
            FrameType::Request
        }
    }
}

/// Option flags of a frame.
#[derive(Debug, Clone, Copy, PartialEq, Eq, Structural)]
pub struct PacketOptions {
    pub bits: u8,
}

impl PacketOptions {
    /// Frame length is extended from 16 bits to 32 bits.
    pub open spec fn spec_jumbo(self) -> bool {
        self.bits % 2 == 1
    }

    pub fn none() -> (r: PacketOptions)
        ensures
            r.bits == 0,
    {
        PacketOptions { bits: 0 }
    }

    pub fn from_bits_retain(bits: u8) -> (r: PacketOptions)
        ensures
            r.bits == bits,
    {
        PacketOptions { bits }
    }

    /// Whether the jumbo frame flag is set.
    pub fn is_jumbo(&self) -> (r: bool)
        ensures
            r == self.spec_jumbo(),
    {
        self.bits % 2 == 1
    }
}

/// Framing structure.
#[derive(Debug, Clone, Copy, PartialEq, Eq, Structural)]
pub struct FireFrame {
    /// The component that should handle this frame
    pub component: u16,
    /// The command this frame is for
    pub command: u16,
    /// Error code if present, otherwise zero
    pub error: u16,
    /// The type of frame
    pub ty: FrameType,
    /// Additional options associated with this frame
    pub options: PacketOptions,
    /// Sequence number for tracking request and response mappings
    pub seq: u16,
}

/// Big-endian bytes of a 16 bit value.
pub open spec fn be16(v: u16) -> Seq<u8> {
    seq![(v / 256) as u8, (v % 256) as u8]
}

/// The 16 bit value of two big-endian bytes.
pub open spec fn read_be16(hi: u8, lo: u8) -> int {
    hi * 256 + lo
}

/// The option bits written for a frame of `length` content bytes: the
/// jumbo flag is added when the length does not fit in 16 bits.
pub open spec fn written_options(options: PacketOptions, length: nat) -> u8 {
    if length > 0xFFFF && options.bits % 2 == 0 {
        (options.bits + 1) as u8
    } else {
        options.bits
    }
}

/// The header bytes written for `frame` with `length` content bytes.
pub open spec fn header_bytes(frame: FireFrame, length: nat) -> Seq<u8> {
    let opts = written_options(frame.options, length);
    be16((length % 65536) as u16) + be16(frame.component) + be16(frame.command) + be16(frame.error)
        + seq![(frame.ty.spec_value() * 16) as u8, ((opts % 16) * 16) as u8] + be16(frame.seq)
        + if opts % 2 == 1 {
        be16(((length / 65536) % 65536) as u16)
    } else {
        Seq::empty()
    }
}

/// The frame and content length read from the start of `s`, if `s`
/// holds a whole header.
pub open spec fn parse_header(s: Seq<u8>) -> Option<(FireFrame, nat)> {
    if s.len() < 12 {
        None
    } else {
        let opts = s[9] / 16;
        let frame = FireFrame {
            component: read_be16(s[2], s[3]) as u16,
            command: read_be16(s[4], s[5]) as u16,
            error: read_be16(s[6], s[7]) as u16,
            ty: FrameType::spec_from_value(s[8] / 16),
            options: PacketOptions { bits: opts as u8 },
            seq: read_be16(s[10], s[11]) as u16,
        };
        if opts % 2 == 1 {
            if s.len() < 14 {
                None
            } else {
                Some((frame, (read_be16(s[0], s[1]) + read_be16(s[12], s[13]) * 65536) as nat))
            }
        } else {
            Some((frame, read_be16(s[0], s[1]) as nat))
        }
    }
}

/// Pushes the big-endian bytes of `v`.
fn push_be16(dst: &mut Vec<u8>, v: u16)
    ensures
        final(dst)@ == old(dst)@ + be16(v),
{
    dst.push((v / 256) as u8);
    dst.push((v % 256) as u8);
    assert(final(dst)@ =~= old(dst)@ + be16(v));
}

/// Reads a big-endian 16 bit value at `at`.
fn get_be16(src: &[u8], at: usize) -> (r: u16)
    requires
        at + 1 < src@.len(),
    ensures
        r == read_be16(src@[at as int], src@[at + 1]),
{
    (src[at] as u16) * 256 + (src[at + 1] as u16)
}

impl FireFrame {
    /// Size of a header without the extended length.
    pub const MIN_HEADER_SIZE: usize = 12;

    /// Size in bytes of this frame's header.
    pub open spec fn spec_header_len(&self) -> nat {
        if self.options.spec_jumbo() {
            14
        } else {
            12
        }
    }

    pub fn header_len(&self) -> (r: usize)
        ensures
            r == self.spec_header_len(),
    {
        if self.options.is_jumbo() {
            14
        } else {
            12
        }
    }

    pub fn notify(component: u16, command: u16) -> (r: FireFrame)
        ensures
            r == (FireFrame {
                component,
                command,
                error: 0,
                ty: FrameType::Notify,
                options: PacketOptions { bits: 0 },
                seq: 0,
            }),
    {
        FireFrame { component, command, error: 0, ty: FrameType::Notify, options: PacketOptions::none(), seq: 0 }
    }

    pub fn request(seq: u16, component: u16, command: u16) -> (r: FireFrame)
        ensures
            r == (FireFrame {
                component,
                command,
                error: 0,
                ty: FrameType::Request,
                options: PacketOptions { bits: 0 },
                seq,
            }),
    {
        FireFrame { component, command, error: 0, ty: FrameType::Request, options: PacketOptions::none(), seq }
    }

    /// The same frame with another type and no options.
    pub open spec fn spec_with_type(&self, ty: FrameType) -> FireFrame {
        FireFrame { ty, options: PacketOptions { bits: 0 }, ..*self }
    }

    pub fn response(&self) -> (r: FireFrame)
        ensures
            r == self.spec_with_type(FrameType::Response),
    {
        self.with_type(FrameType::Response)
    }

    pub fn with_type(&self, ty: FrameType) -> (r: FireFrame)
        ensures
            r == self.spec_with_type(ty),
    {
        FireFrame {
            component: self.component,
            command: self.command,
            error: self.error,
            ty,
            options: PacketOptions::none(),
            seq: self.seq,
        }
    }

    pub fn with_error(&self, error: u16) -> (r: FireFrame)
        ensures
            r == (FireFrame { error, ..self.spec_with_type(FrameType::Error) }),
    {
        FireFrame {
            component: self.component,
            command: self.command,
            error,
            ty: FrameType::Error,
            options: PacketOptions::none(),
            seq: self.seq,
        }
    }

    /// Whether two frames address the same component and command.
    pub fn path_matches(&self, other: &FireFrame) -> (r: bool)
        ensures
            r == (self.component == other.component && self.command == other.command),
    {
        self.component == other.component && self.command == other.command
    }

    /// Writes the header of a frame carrying `length` content bytes.
    pub fn write(&self, dst: &mut Vec<u8>, length: usize)
        ensures
            final(dst)@ == old(dst)@ + header_bytes(*self, length as nat),
    {
        let opts: u8 = if length > 0xFFFF && self.options.bits % 2 == 0 {
            self.options.bits + 1
        } else {
            self.options.bits
        };
        push_be16(dst, (length % 65536) as u16);
        push_be16(dst, self.component);
        push_be16(dst, self.command);
        push_be16(dst, self.error);
        dst.push(self.ty.value() * 16);
        dst.push((opts % 16) * 16);
        push_be16(dst, self.seq);
        if opts % 2 == 1 {
            push_be16(dst, ((length / 65536) % 65536) as u16);
        }
        assert(final(dst)@ =~= old(dst)@ + header_bytes(*self, length as nat));
    }

    /// Takes a frame header off the front of `src`, giving the frame and
    /// the length of its content; `None` when `src` is too short, in which
    /// case the fixed part of the header is taken off where `src` held it.
    pub fn read(src: &mut Vec<u8>) -> (r: Option<(FireFrame, usize)>)
        ensures
            r matches Some((f, len)) ==> parse_header(old(src)@) == Some((f, len as nat))
                && final(src)@ == old(src)@.skip(f.spec_header_len() as int),
            r is None ==> parse_header(old(src)@) is None && final(src)@ == (if old(src)@.len() < 12 {
                old(src)@
            } else {
                old(src)@.skip(12)
            }),
    {
        let result = Self::read_header(src.as_slice());
        match result {
            Some((frame, length)) => {
                let used = frame.header_len();
                let rest = copy_range(src.as_slice(), used, src.len());
                *src = rest;
                assert(final(src)@ =~= old(src)@.skip(used as int));
                Some((frame, length))
            },
            None => {
                if src.len() >= Self::MIN_HEADER_SIZE {
                    let rest = copy_range(src.as_slice(), 12, src.len());
                    *src = rest;
                    assert(final(src)@ =~= old(src)@.skip(12));
                }
                None
            },
        }
    }

    /// Reads a frame header from the start of `src`, giving the frame and
    /// the length of its content; `None` when `src` is too short.
    fn read_header(src: &[u8]) -> (r: Option<(FireFrame, usize)>)
        ensures
            r matches Some((f, len)) ==> parse_header(src@) == Some((f, len as nat)),
            r is None ==> parse_header(src@) is None,
    {
        if src.len() < Self::MIN_HEADER_SIZE {
            return None;
        }
        let length = get_be16(src, 0) as usize;
        let component = get_be16(src, 2);
        let command = get_be16(src, 4);
        let error = get_be16(src, 6);
        let ty = src[8] / 16;
        let options = PacketOptions::from_bits_retain(src[9] / 16);
        let seq = get_be16(src, 10);
        let frame = FireFrame { component, command, error, ty: FrameType::from_value(ty), options, seq };
        if options.is_jumbo() {
            if src.len() < 14 {
                return None;
            }
            let ext = get_be16(src, 12) as usize;
            proof {
                assert(ext * 65536 <= 65535 * 65536);
            }
            let total: u64 = (length as u64) + (ext as u64) * 65536;
            return Some((frame, total as usize));
        }
        Some((frame, length))
    }
}

/// Copies `src[start..end]` into a new vector.
pub fn copy_range(src: &[u8], start: usize, end: usize) -> (r: Vec<u8>)
    requires
        start <= end <= src@.len(),
    ensures
        r@ == src@.subrange(start as int, end as int),
{
    let mut r: Vec<u8> = Vec::new();
    let mut i = start;
    while i < end
        invariant
            start <= i <= end <= src@.len(),
            r@ == src@.subrange(start as int, i as int),
        decreases end - i,
    {
        r.push(src[i]);
        i = i + 1;
        assert(r@ =~= src@.subrange(start as int, i as int));
    }
    r
}

/// Appends all of `src` to `dst`.
pub fn extend_bytes(dst: &mut Vec<u8>, src: &[u8])
    ensures
        final(dst)@ == old(dst)@ + src@,
{
    let mut i: usize = 0;
    while i < src.len()
        invariant
            0 <= i <= src@.len(),
            dst@ == old(dst)@ + src@.subrange(0, i as int),
        decreases src@.len() - i,
    {
        dst.push(src[i]);
        i = i + 1;
        assert(dst@ =~= old(dst)@ + src@.subrange(0, i as int));
    }
    assert(src@.subrange(0, src@.len() as int) =~= src@);
}

/// A packet: its frame and the encoded contents.
pub struct Packet {
    /// The frame preceding this packet
    pub frame: FireFrame,
    /// The encoded contents of the packet
    pub contents: Vec<u8>,
}

/// The bytes of a whole packet: its header then its contents.
pub open spec fn packet_bytes(frame: FireFrame, contents: Seq<u8>) -> Seq<u8> {
    header_bytes(frame, contents.len()) + contents
}

/// The frame, contents and total size of the packet at the start of `s`,
/// if `s` holds a whole packet.
pub open spec fn parse_packet(s: Seq<u8>) -> Option<(FireFrame, Seq<u8>, nat)> {
    match parse_header(s) {
        None => None,
        Some((frame, length)) => {
            let start = frame.spec_header_len();
            if s.len() < start + length {
                None
            } else {
                Some((frame, s.subrange(start as int, (start + length) as int), start + length))
            }
        },
    }
}

impl Packet {
    /// Creates a new packet from the provided header and contents
    pub fn new(frame: FireFrame, contents: Vec<u8>) -> (r: Packet)
        ensures
            r.frame == frame,
            r.contents@ == contents@,
    {
        Packet { frame, contents }
    }

    /// Creates a new packet from the provided header with empty content
    pub fn new_empty(frame: FireFrame) -> (r: Packet)
        ensures
            r.frame == frame,
            r.contents@.len() == 0,
    {
        Packet { frame, contents: Vec::new() }
    }

    pub fn new_request(id: u16, component: u16, command: u16, contents: Vec<u8>) -> (r: Packet)
        ensures
            r.frame == (FireFrame {
                component,
                command,
                error: 0,
                ty: FrameType::Request,
                options: PacketOptions { bits: 0 },
                seq: id,
            }),
            r.contents@ == contents@,
    {
        Packet::new(FireFrame::request(id, component, command), contents)
    }

    pub fn new_response(packet: &Packet, contents: Vec<u8>) -> (r: Packet)
        ensures
            r.frame == packet.frame.spec_with_type(FrameType::Response),
            r.contents@ == contents@,
    {
        Packet::new(packet.frame.response(), contents)
    }

    pub fn new_error(packet: &Packet, error: u16, contents: Vec<u8>) -> (r: Packet)
        ensures
            r.frame == (FireFrame { error, ..packet.frame.spec_with_type(FrameType::Error) }),
            r.contents@ == contents@,
    {
        Packet::new(packet.frame.with_error(error), contents)
    }

    pub fn new_notify(component: u16, command: u16, contents: Vec<u8>) -> (r: Packet)
        ensures
            r.frame == (FireFrame {
                component,
                command,
                error: 0,
                ty: FrameType::Notify,
                options: PacketOptions { bits: 0 },
                seq: 0,
            }),
            r.contents@ == contents@,
    {
        Packet::new(FireFrame::notify(component, command), contents)
    }

    pub fn request_empty(id: u16, component: u16, command: u16) -> (r: Packet)
        ensures
            r.frame == (FireFrame {
                component,
                command,
                error: 0,
                ty: FrameType::Request,
                options: PacketOptions { bits: 0 },
                seq: id,
            }),
            r.contents@.len() == 0,
    {
        Packet::new_empty(FireFrame::request(id, component, command))
    }

    pub fn response_empty(packet: &Packet) -> (r: Packet)
        ensures
            r.frame == packet.frame.spec_with_type(FrameType::Response),
            r.contents@.len() == 0,
    {
        Packet::new_empty(packet.frame.response())
    }

    pub fn error_empty(packet: &Packet, error: u16) -> (r: Packet)
        ensures
            r.frame == (FireFrame { error, ..packet.frame.spec_with_type(FrameType::Error) }),
            r.contents@.len() == 0,
    {
        Packet::new_empty(packet.frame.with_error(error))
    }

    pub fn notify_empty(component: u16, command: u16) -> (r: Packet)
        ensures
            r.frame == (FireFrame {
                component,
                command,
                error: 0,
                ty: FrameType::Notify,
                options: PacketOptions { bits: 0 },
                seq: 0,
            }),
            r.contents@.len() == 0,
    {
        Packet::new_empty(FireFrame::notify(component, command))
    }

    /// Reads a whole packet from the start of `src`, giving the packet and
    /// the number of bytes it took; `None` when `src` does not yet hold a
    /// whole packet.
    pub fn read(src: &[u8]) -> (r: Option<(Packet, usize)>)
        ensures
            r matches Some((p, n)) ==> parse_packet(src@) == Some((p.frame, p.contents@, n as nat)),
            r is None ==> parse_packet(src@) is None,
    {
        let (frame, length) = match FireFrame::read_header(src) {
            Some(value) => value,
            None => return None,
        };
        let start = frame.header_len();
        if src.len() - start < length {
            return None;
        }
        let contents = copy_range(src, start, start + length);
        Some((Packet { frame, contents }, start + length))
    }

    /// Writes the packet header and contents to `dst`.
    pub fn write(&self, dst: &mut Vec<u8>)
        ensures
            final(dst)@ == old(dst)@ + packet_bytes(self.frame, self.contents@),
    {
        self.frame.write(dst, self.contents.len());
        extend_bytes(dst, self.contents.as_slice());
        assert(final(dst)@ =~= old(dst)@ + packet_bytes(self.frame, self.contents@));
    }
}

/// Reading a packet gives back the frame (with the options it was written
/// with), the contents and the size of what was written, whatever follows.
pub proof fn lemma_packet_roundtrip(frame: FireFrame, contents: Seq<u8>, rest: Seq<u8>)
    requires
        frame.options.bits < 16,
        contents.len() < 0x1_0000_0000,
    ensures
        parse_packet(packet_bytes(frame, contents) + rest) == Some((
            written_frame(frame, contents.len()),
            contents,
            packet_bytes(frame, contents).len(),
        )),
{
    let h = header_bytes(frame, contents.len());
    lemma_header_roundtrip(frame, contents.len(), contents + rest);
    assert(packet_bytes(frame, contents) + rest =~= h + (contents + rest));
    assert((h + (contents + rest)).subrange(h.len() as int, (h.len() + contents.len()) as int) =~= contents);
}

/// Codec splitting a byte stream into packets.
pub struct PacketCodec {}

impl PacketCodec {
    /// Takes the next whole packet off the front of `src`, leaving `src`
    /// unchanged when it does not yet hold one.
    pub fn decode(&mut self, src: &mut Vec<u8>) -> (r: Option<Packet>)
        ensures
            r matches Some(p) ==> parse_packet(old(src)@) matches Some((f, c, n))
                && p.frame == f && p.contents@ == c && final(src)@ == old(src)@.skip(n as int),
            r is None ==> parse_packet(old(src)@) is None && final(src)@ == old(src)@,
    {
        match Packet::read(src.as_slice()) {
            Some((packet, used)) => {
                let remaining = copy_range(src.as_slice(), used, src.len());
                *src = remaining;
                assert(final(src)@ =~= old(src)@.skip(used as int));
                Some(packet)
            },
            None => None,
        }
    }

    /// Appends the bytes of `item` to `dst`.
    pub fn encode(&mut self, item: Packet, dst: &mut Vec<u8>)
        ensures
            final(dst)@ == old(dst)@ + packet_bytes(item.frame, item.contents@),
    {
        item.write(dst);
    }
}

/// The frame as it reads back after being written with `length` content
/// bytes: the jumbo flag may have been added to its options.
pub open spec fn written_frame(frame: FireFrame, length: nat) -> FireFrame {
    FireFrame { options: PacketOptions { bits: written_options(frame.options, length) }, ..frame }
}

/// Reading a header gives back the frame and length it was written with,
/// and taking it off leaves the bytes that follow it, for every frame
/// whose option bits fit in the four bits of the wire format and every
/// length that fits in 32 bits.
pub proof fn lemma_header_roundtrip(frame: FireFrame, length: nat, rest: Seq<u8>)
    requires
        frame.options.bits < 16,
        length < 0x1_0000_0000,
    ensures
        parse_header(header_bytes(frame, length) + rest) == Some((written_frame(frame, length), length)),
        header_bytes(frame, length).len() == written_frame(frame, length).spec_header_len(),
        (header_bytes(frame, length) + rest).skip(written_frame(frame, length).spec_header_len() as int) == rest,
{
    let s = header_bytes(frame, length) + rest;
    let opts = written_options(frame.options, length);
    assert(opts < 16);
    assert(s[8] / 16 == frame.ty.spec_value());
    assert(s[9] / 16 == opts);
    lemma_be16_roundtrip((length % 65536) as u16);
    lemma_be16_roundtrip(frame.component);
    lemma_be16_roundtrip(frame.command);
    lemma_be16_roundtrip(frame.error);
    lemma_be16_roundtrip(frame.seq);
    lemma_be16_roundtrip(((length / 65536) % 65536) as u16);
    assert(FrameType::spec_from_value(frame.ty.spec_value()) == frame.ty);
    if opts % 2 == 1 {
        assert(length % 65536 + ((length / 65536) % 65536) * 65536 == length);
    } else {
        assert(length <= 0xFFFF);
    }
    assert(s.skip(header_bytes(frame, length).len() as int) =~= rest);
}

proof fn lemma_be16_roundtrip(v: u16)
    ensures
        read_be16(be16(v)[0], be16(v)[1]) == v,
{
}

} // verus!
