//! Wire framing for protocol packets.
//!
//! A packet starts with a 12 byte big-endian header:
//! `length:u16 | component:u16 | command:u16 | error:u16 | type byte |
//! options byte | sequence:u16`, where the type and options bytes carry
//! their value in the high nibble and keep the low nibble zero. When the
//! jumbo-frame option is set, two extension bytes follow the header and
//! carry bits 16..32 of the content length (high byte first). The content
//! bytes follow the header.

use vstd::prelude::*;

verus! {

/// Option flag: the content length needs the two extension bytes.
pub const JUMBO_FRAME: u8 = 0x1;
/// Option flag: the packet carries a context value.
pub const HAS_CONTEXT: u8 = 0x2;
/// Option flag: the packet asks for immediate handling.
pub const IMMEDIATE: u8 = 0x4;
/// Option flag: the context value uses the extended form.
pub const JUMBO_CONTEXT: u8 = 0x8;

/// The different types of packets.
#[derive(Debug, Copy, Clone, PartialEq, Eq, Structural)]
pub enum PacketType {
    /// Id-counted request packets (ordinal 0)
    Request,
    /// Packets responding to requests (ordinal 1)
    Response,
    /// Unrequested packets coming from the server (ordinal 2)
    Notify,
    /// Error packets (ordinal 3)
    Error,
}

impl PacketType {
    /// The ordinal value this type is written as on the wire.
    pub open spec fn spec_ordinal(self) -> u8 {
        match self {
            PacketType::Request => 0,
            PacketType::Response => 1,
            PacketType::Notify => 2,
            PacketType::Error => 3,
        }
    }

    /// Returns the wire ordinal of this packet type.
    pub fn ordinal(self) -> (r: u8)
        ensures
            r == self.spec_ordinal(),
    {
        match self {
            PacketType::Request => 0,
            PacketType::Response => 1,
            PacketType::Notify => 2,
            PacketType::Error => 3,
        }
    }

    /// The packet type an ordinal decodes to. Ordinals above 3 fall back
    /// to `Request`: a deliberate leniency kept for wire compatibility.
    pub open spec fn spec_from_ordinal(value: u8) -> PacketType {
        if value == 1 {
            PacketType::Response
        } else if value == 2 {
            PacketType::Notify
        } else if value == 3 {
            PacketType::Error
        } else {
            PacketType::Request
        }
    }
}

impl From<u8> for PacketType {
    /// Decodes a wire ordinal; any value above 3 decodes as `Request`.
    fn from(value: u8) -> (r: PacketType) {
        match value {
            1u8 => PacketType::Response,
            2u8 => PacketType::Notify,
            3u8 => PacketType::Error,
            _ => PacketType::Request,
        }
    }
}

impl vstd::std_specs::convert::FromSpecImpl<u8> for PacketType {
    open spec fn obeys_from_spec() -> bool {
        true
    }

    open spec fn from_spec(v: u8) -> PacketType {
        PacketType::spec_from_ordinal(v)
    }
}

/// The option flags of a packet, stored in the low four bits. The wire
/// carries them in the high nibble of the options byte; the low nibble
/// on the wire is reserved and always zero.
#[derive(Debug, Copy, Clone, PartialEq, Eq, Structural)]
pub struct PacketOptions {
    /// The raw flag bits. Well-formed values keep the high nibble zero.
    pub bits: u8,
}

impl PacketOptions {
    /// The flag bits fit in the wire nibble.
    pub open spec fn wf(self) -> bool {
        self.bits < 16
    }

    /// Whether the jumbo-frame flag is set.
    pub open spec fn spec_jumbo(self) -> bool {
        self.bits & JUMBO_FRAME == JUMBO_FRAME
    }

    /// No flags set.
    pub fn none() -> (r: PacketOptions)
        ensures
            r.bits == 0,
            r.wf(),
    {
        PacketOptions { bits: 0 }
    }

    /// Whether every bit of `flags` is set.
    pub fn contains(self, flags: u8) -> (r: bool)
        ensures
            r == (self.bits & flags == flags),
    {
        self.bits & flags == flags
    }
}

/// The fixed header that precedes every packet's content and
/// describes it.
#[derive(Debug, Copy, Clone, PartialEq, Eq, Structural)]
pub struct PacketHeader {
    /// The component half of the routing path.
    pub component: u16,
    /// The command half of the routing path.
    pub command: u16,
    /// The error code; meaningful on `Error` packets.
    pub error: u16,
    /// The packet type.
    pub ty: PacketType,
    /// The option flags.
    pub options: PacketOptions,
    /// The sequence number correlating requests with responses.
    pub seq: u16,
}

/// The two big-endian bytes of a 16 bit value.
pub open spec fn u16_be(v: u16) -> Seq<u8> {
    seq![(v / 256) as u8, (v % 256) as u8]
}

/// The 16 bit value read from two big-endian bytes.
pub open spec fn be_val(hi: u8, lo: u8) -> u16 {
    (hi * 256 + lo) as u16
}

impl PacketHeader {
    /// The header's fields are in range for the wire form.
    pub open spec fn wf(self) -> bool {
        self.options.wf()
    }

    /// The options actually written: the caller's flags, with the
    /// jumbo-frame flag forced on when the content length does not fit
    /// the base 16 bit length field.
    pub open spec fn spec_effective_bits(self, length: nat) -> u8 {
        if length > 0xFFFF {
            self.options.bits | JUMBO_FRAME
        } else {
            self.options.bits
        }
    }

    /// The exact bytes `write` produces for this header and a content
    /// length.
    pub open spec fn spec_bytes(self, length: nat) -> Seq<u8> {
        let bits = self.spec_effective_bits(length);
        let base = u16_be((length % 0x10000) as u16) + u16_be(self.component) + u16_be(self.command)
            + u16_be(self.error) + seq![(self.ty.spec_ordinal() * 16) as u8]
            + seq![(bits * 16) as u8] + u16_be(self.seq);
        if (PacketOptions { bits }).spec_jumbo() {
            base + seq![((length / 0x1000000) % 256) as u8, ((length / 0x10000) % 256) as u8]
        } else {
            base
        }
    }

    /// The header a copy with type `Response` answers with.
    pub fn response(&self) -> (r: Self)
        ensures
            r == self.spec_with_type(PacketType::Response),
    {
        self.with_type(PacketType::Response)
    }

    /// The header copied with its type replaced and its options cleared.
    pub open spec fn spec_with_type(self, ty: PacketType) -> PacketHeader {
        PacketHeader {
            component: self.component,
            command: self.command,
            error: self.error,
            ty,
            options: PacketOptions { bits: 0 },
            seq: self.seq,
        }
    }

    /// Copies the header, changing its packet type and clearing the
    /// option flags.
    pub fn with_type(&self, ty: PacketType) -> (r: Self)
        ensures
            r == self.spec_with_type(ty),
    {
        Self {
            component: self.component,
            command: self.command,
            error: self.error,
            ty,
            options: PacketOptions { bits: 0 },
            seq: self.seq,
        }
    }

    /// The header of a request with the given id, component and command.
    pub open spec fn spec_request(id: u16, component: u16, command: u16) -> PacketHeader {
        PacketHeader {
            component,
            command,
            error: 0,
            ty: PacketType::Request,
            options: PacketOptions { bits: 0 },
            seq: id,
        }
    }

    /// Creates a request header for the provided id, component and
    /// command.
    pub fn request(id: u16, component: u16, command: u16) -> (r: Self)
        ensures
            r == Self::spec_request(id, component, command),
            r.wf(),
    {
        Self {
            component,
            command,
            error: 0,
            ty: PacketType::Request,
            options: PacketOptions { bits: 0 },
            seq: id,
        }
    }

    /// Two headers share a routing path when both the component and the
    /// command are equal; type and sequence play no part.
    pub open spec fn spec_path_matches(self, other: PacketHeader) -> bool {
        self.component == other.component && self.command == other.command
    }

    /// Whether this header and `other` share a routing path.
    pub fn path_matches(&self, other: &PacketHeader) -> (r: bool)
        ensures
            r == self.spec_path_matches(*other),
    {
        self.component == other.component && self.command == other.command
    }

    /// The header as decoding returns it after a round trip: the same
    /// fields, with the options replaced by the effective ones.
    pub open spec fn spec_encoded_form(self, length: nat) -> PacketHeader {
        PacketHeader { options: PacketOptions { bits: self.spec_effective_bits(length) }, ..self }
    }

    /// Appends the wire form of this header for a content of `length`
    /// bytes. When `length` exceeds the base 16 bit field the jumbo-frame
    /// flag is forced on and the two extension bytes are appended.
    pub fn write(&self, dst: &mut Vec<u8>, length: usize)
        requires
            self.wf(),
            length < 0x100000000,
        ensures
            final(dst)@ == old(dst)@ + self.spec_bytes(length as nat),
    {
        let bits: u8 = if length > 0xFFFF {
            proof {
                lemma_or_one_nibble(self.options.bits);
            }
            self.options.bits | JUMBO_FRAME
        } else {
            self.options.bits
        };
        let base: usize = length % 0x10000;
        dst.push((base / 256) as u8);
        dst.push((base % 256) as u8);
        dst.push((self.component / 256) as u8);
        dst.push((self.component % 256) as u8);
        dst.push((self.command / 256) as u8);
        dst.push((self.command % 256) as u8);
        dst.push((self.error / 256) as u8);
        dst.push((self.error % 256) as u8);
        dst.push(self.ty.ordinal() * 16);
        dst.push(bits * 16);
        dst.push((self.seq / 256) as u8);
        dst.push((self.seq % 256) as u8);
        if bits & JUMBO_FRAME == JUMBO_FRAME {
            dst.push(((length / 0x1000000) % 256) as u8);
            dst.push(((length / 0x10000) % 256) as u8);
        }
        proof {
            assert(dst@ =~= old(dst)@ + self.spec_bytes(length as nat));
        }
    }

    /// Decodes a header from the front of `src` without consuming
    /// anything. Returns the header, the content length and the number
    /// of header bytes, or `None` when fewer bytes than a full header
    /// are available ("need more data", never an error).
    pub fn peek(src: &Vec<u8>) -> (r: Option<(PacketHeader, usize, usize)>)
        ensures
            spec_read_header(src@) is None ==> r is None,
            spec_read_header(src@) matches Some((h, len, used)) ==> r == Some(
                (h, len as usize, used as usize),
            ),
    {
        if src.len() < 12 {
            return None;
        }
        let header = PacketHeader {
            component: read_u16_be(src, 2),
            command: read_u16_be(src, 4),
            error: read_u16_be(src, 6),
            ty: PacketType::from(src[8] / 16),
            options: PacketOptions { bits: src[9] / 16 },
            seq: read_u16_be(src, 10),
        };
        let base: usize = read_u16_be(src, 0) as usize;
        if header.options.contains(JUMBO_FRAME) {
            if src.len() < 14 {
                return None;
            }
            let hi: usize = src[12] as usize;
            let mid: usize = src[13] as usize;
            assert(usize::MAX >= 0xFFFFFFFF);
            let length: usize = base + hi * 0x1000000 + mid * 0x10000;
            Some((header, length, 14))
        } else {
            Some((header, base, 12))
        }
    }

    /// Decodes a header from the front of `src`, consuming its bytes on
    /// success and leaving `src` untouched when more data is needed.
    pub fn read(src: &mut Vec<u8>) -> (r: Option<(PacketHeader, usize)>)
        ensures
            spec_read_header(old(src)@) is None ==> r is None && final(src)@ == old(src)@,
            spec_read_header(old(src)@) matches Some((h, len, used)) ==> r == Some(
                (h, len as usize),
            ) && final(src)@ == old(src)@.skip(used as int),
    {
        match Self::peek(src) {
            None => None,
            Some((header, length, used)) => {
                vec_drop_front(src, used);
                Some((header, length))
            },
        }
    }
}

/// The header, content bytes and total consumed size decoded from the
/// front of a byte sequence, or `None` when no complete packet is
/// available yet.
pub open spec fn spec_read_packet(s: Seq<u8>) -> Option<(PacketHeader, Seq<u8>, nat)> {
    match spec_read_header(s) {
        None => None,
        Some((h, len, used)) => if s.len() < used + len {
            None
        } else {
            Some((h, s.subrange(used as int, (used + len) as int), (used + len) as nat))
        },
    }
}

/// The header, content length and header size decoded from the front of
/// a byte sequence, or `None` when fewer bytes than a full header are
/// available.
pub open spec fn spec_read_header(s: Seq<u8>) -> Option<(PacketHeader, nat, nat)> {
    if s.len() < 12 {
        None
    } else {
        let h = PacketHeader {
            component: be_val(s[2], s[3]),
            command: be_val(s[4], s[5]),
            error: be_val(s[6], s[7]),
            ty: PacketType::spec_from_ordinal((s[8] / 16) as u8),
            options: PacketOptions { bits: (s[9] / 16) as u8 },
            seq: be_val(s[10], s[11]),
        };
        let base = be_val(s[0], s[1]) as nat;
        if h.options.spec_jumbo() {
            if s.len() < 14 {
                None
            } else {
                Some((h, (base + s[12] * 0x1000000 + s[13] * 0x10000) as nat, 14))
            }
        } else {
            Some((h, base, 12))
        }
    }
}

/// Reads the big-endian 16 bit value at byte offset `i`.
fn read_u16_be(src: &Vec<u8>, i: usize) -> (r: u16)
    requires
        i + 2 <= src@.len(),
    ensures
        r == be_val(src@[i as int], src@[i + 1]),
{
    let n: usize = src.len();
    assert(i + 2 <= n);
    (src[i] as u16) * 256 + (src[i + 1] as u16)
}

/// Removes the first `n` bytes of `v`.
fn vec_drop_front(v: &mut Vec<u8>, n: usize)
    requires
        n <= old(v)@.len(),
    ensures
        final(v)@ == old(v)@.skip(n as int),
{
    let ghost orig = v@;
    let mut out: Vec<u8> = Vec::new();
    let mut i: usize = n;
    while i < v.len()
        invariant
            n <= i <= v@.len(),
            v@ == orig,
            out@ == orig.subrange(n as int, i as int),
        decreases v@.len() - i,
    {
        out.push(v[i]);
        i = i + 1;
        proof {
            assert(out@ =~= orig.subrange(n as int, i as int));
        }
    }
    proof {
        assert(out@ =~= orig.skip(n as int));
    }
    *v = out;
}

/// Copies the bytes of `v` from offset `from` (inclusive) to `to`
/// (exclusive) into a fresh vector.
fn vec_copy_range(v: &Vec<u8>, from: usize, to: usize) -> (r: Vec<u8>)
    requires
        from <= to <= v@.len(),
    ensures
        r@ == v@.subrange(from as int, to as int),
{
    let mut out: Vec<u8> = Vec::new();
    let mut i: usize = from;
    while i < to
        invariant
            from <= i <= to <= v@.len(),
            out@ == v@.subrange(from as int, i as int),
        decreases to - i,
    {
        out.push(v[i]);
        i = i + 1;
        proof {
            assert(out@ =~= v@.subrange(from as int, i as int));
        }
    }
    out
}

/// A packet: a header plus its content bytes.
#[derive(Debug, Clone)]
pub struct Packet {
    /// The packet header.
    pub header: PacketHeader,
    /// The packet's encoded byte contents.
    pub contents: Vec<u8>,
}

impl Packet {
    /// The packet can be framed: well-formed header and a content
    /// length the 32 bit wire length can carry.
    pub open spec fn wf(self) -> bool {
        self.header.wf() && self.contents@.len() < 0x100000000
    }

    /// The exact bytes `write` produces for this packet.
    pub open spec fn spec_bytes(self) -> Seq<u8> {
        self.header.spec_bytes(self.contents@.len()) + self.contents@
    }

    /// Creates a new packet from the provided header and contents.
    pub fn new(header: PacketHeader, contents: Vec<u8>) -> (r: Self)
        ensures
            r.header == header,
            r.contents@ == contents@,
    {
        Self { header, contents }
    }

    /// Creates a new packet from the provided header with empty content.
    pub fn new_empty(header: PacketHeader) -> (r: Self)
        ensures
            r.header == header,
            r.contents@ == Seq::<u8>::empty(),
    {
        Self::new(header, Vec::new())
    }

    /// Creates a request packet for the provided id, component and
    /// command carrying `contents`.
    pub fn new_request(id: u16, component: u16, command: u16, contents: Vec<u8>) -> (r: Packet)
        ensures
            r.header == PacketHeader::spec_request(id, component, command),
            r.contents@ == contents@,
    {
        Self::new(PacketHeader::request(id, component, command), contents)
    }

    /// Creates a response packet answering `packet`, carrying
    /// `contents`.
    pub fn new_response(packet: &Packet, contents: Vec<u8>) -> (r: Self)
        ensures
            r.header == packet.header.spec_with_type(PacketType::Response),
            r.contents@ == contents@,
    {
        Self::new(packet.header.response(), contents)
    }

    /// Creates an empty request packet for the provided id, component
    /// and command.
    pub fn request_empty(id: u16, component: u16, command: u16) -> (r: Packet)
        ensures
            r.header == PacketHeader::spec_request(id, component, command),
            r.contents@ == Seq::<u8>::empty(),
    {
        Self::new_empty(PacketHeader::request(id, component, command))
    }

    /// Creates an empty response packet answering `packet`.
    pub fn response_empty(packet: &Packet) -> (r: Self)
        ensures
            r.header == packet.header.spec_with_type(PacketType::Response),
            r.contents@ == Seq::<u8>::empty(),
    {
        Self::new_empty(packet.header.response())
    }

    /// A copy of this packet with the same header and content bytes.
    pub fn duplicate(&self) -> (r: Packet)
        ensures
            r.header == self.header,
            r.contents@ == self.contents@,
    {
        let contents = vec_copy_range(&self.contents, 0, self.contents.len());
        proof {
            assert(self.contents@.subrange(0, self.contents@.len() as int) =~= self.contents@);
        }
        Packet { header: self.header, contents }
    }

    /// Decodes one packet from the front of `src`, consuming its bytes.
    /// When no complete packet is available yet (a partial header, a
    /// missing jumbo extension, or fewer content bytes than the header
    /// announces), returns `None` and leaves `src` exactly as it was.
    pub fn read(src: &mut Vec<u8>) -> (r: Option<Packet>)
        ensures
            spec_read_packet(old(src)@) is None ==> r is None && final(src)@ == old(src)@,
            spec_read_packet(old(src)@) matches Some((h, c, used)) ==> r matches Some(p)
                && p.header == h && p.contents@ == c && final(src)@ == old(src)@.skip(used as int),
    {
        let (header, length, used) = match PacketHeader::peek(src) {
            None => {
                return None;
            },
            Some(v) => v,
        };
        if src.len() - used < length {
            return None;
        }
        let contents = vec_copy_range(src, used, used + length);
        vec_drop_front(src, used + length);
        Some(Packet { header, contents })
    }

    /// Appends the wire form of this packet: its header (with the
    /// jumbo-frame flag forced on when the content is longer than the
    /// base length field can carry) followed by its content bytes.
    pub fn write(&self, dst: &mut Vec<u8>)
        requires
            self.wf(),
        ensures
            final(dst)@ == old(dst)@ + self.spec_bytes(),
    {
        self.header.write(dst, self.contents.len());
        let mut i: usize = 0;
        let ghost mid = dst@;
        while i < self.contents.len()
            invariant
                0 <= i <= self.contents@.len(),
                dst@ == mid + self.contents@.subrange(0, i as int),
            decreases self.contents@.len() - i,
        {
            dst.push(self.contents[i]);
            i = i + 1;
            proof {
                assert(dst@ =~= mid + self.contents@.subrange(0, i as int));
            }
        }
        proof {
            assert(dst@ =~= old(dst)@ + self.spec_bytes());
        }
    }
}

/// The streaming frame demultiplexer: decodes discrete packets from a
/// pending byte buffer and encodes packets onto an outgoing one. A
/// decode attempt only consumes bytes when a complete packet was
/// parsed, so partial reads are handled by waiting for more data.
pub struct PacketCodec;

impl PacketCodec {
    /// Decodes one packet from the front of `src`. On `None` the buffer
    /// is untouched: more data is needed, nothing was lost.
    pub fn decode(&mut self, src: &mut Vec<u8>) -> (r: Option<Packet>)
        ensures
            spec_read_packet(old(src)@) is None ==> r is None && final(src)@ == old(src)@,
            spec_read_packet(old(src)@) matches Some((h, c, used)) ==> r matches Some(p)
                && p.header == h && p.contents@ == c && final(src)@ == old(src)@.skip(used as int),
    {
        Packet::read(src)
    }

    /// Appends the wire form of `item` to `dst`.
    pub fn encode(&mut self, item: Packet, dst: &mut Vec<u8>)
        requires
            item.wf(),
        ensures
            final(dst)@ == old(dst)@ + item.spec_bytes(),
    {
        item.write(dst)
    }
}

/// The low four bits stay within the nibble when the jumbo-frame flag
/// is or-ed in.
proof fn lemma_or_one_nibble(b: u8)
    requires
        b < 16,
    ensures
        b | 1u8 < 16,
        (b | 1u8) & 1u8 == 1u8,
    {
    assert(b < 16 ==> (b | 1u8) < 16 && ((b | 1u8) & 1u8) == 1u8) by (bit_vector);
}

/// Splitting a 16 bit value into its big-endian bytes and reading them
/// back yields the value.
proof fn lemma_u16_be_val(v: u16)
    ensures
        be_val((v / 256) as u8, (v % 256) as u8) == v,
{
}

/// A 32 bit length is recovered from its low 16 bits plus the two jumbo
/// extension bytes weighted as decoding folds them back in.
proof fn lemma_length_split(len: nat)
    requires
        len < 0x100000000,
    ensures
        len % 0x10000 + ((len / 0x1000000) % 256) * 0x1000000 + ((len / 0x10000) % 256) * 0x10000
            == len,
{
    let q = len / 0x10000;
    let r = len % 0x10000;
    vstd::arithmetic::div_mod::lemma_fundamental_div_mod(len as int, 0x10000);
    vstd::arithmetic::div_mod::lemma_fundamental_div_mod(q as int, 256);
    vstd::arithmetic::div_mod::lemma_div_denominator(len as int, 0x10000, 256);
    assert(len / 0x1000000 == q / 256);
    assert(q < 0x10000);
    assert((q / 256) % 256 == q / 256) by {
        vstd::arithmetic::div_mod::lemma_basic_div(q as int / 256, 256);
        vstd::arithmetic::div_mod::lemma_small_mod((q / 256) as nat, 256);
    }
    assert(r + ((q / 256)) * 0x1000000 + (q % 256) * 0x10000 == len) by (nonlinear_arith)
        requires
            q * 0x10000 + r == len,
            (q / 256) * 256 + q % 256 == q,
    {
    }
}

/// Header round trip: decoding what `write` produced for a well-formed
/// header and an in-range content length yields the same header — with
/// the jumbo-frame flag set whenever the length exceeds the base 16 bit
/// field — together with the same length, whatever bytes follow.
pub proof fn lemma_header_round_trip(h: PacketHeader, len: nat, rest: Seq<u8>)
    requires
        h.wf(),
        len < 0x100000000,
    ensures
        spec_read_header(h.spec_bytes(len) + rest) == Some(
            (h.spec_encoded_form(len), len, h.spec_bytes(len).len() as nat),
        ),
{
    let bits = h.spec_effective_bits(len);
    if len > 0xFFFF {
        lemma_or_one_nibble(h.options.bits);
    }
    assert(bits < 16);
    let e = h.spec_bytes(len);
    let s = e + rest;
    assert(s.len() >= 12);
    let v: u16 = (len % 0x10000) as u16;
    lemma_u16_be_val(v);
    lemma_u16_be_val(h.component);
    lemma_u16_be_val(h.command);
    lemma_u16_be_val(h.error);
    lemma_u16_be_val(h.seq);
    assert(s[0] == e[0] && s[1] == e[1] && s[2] == e[2] && s[3] == e[3] && s[4] == e[4] && s[5]
        == e[5] && s[6] == e[6] && s[7] == e[7] && s[8] == e[8] && s[9] == e[9] && s[10] == e[10]
        && s[11] == e[11]);
    let ord = h.ty.spec_ordinal();
    assert(ord <= 3);
    assert((ord * 16) / 16 == ord);
    assert(PacketType::spec_from_ordinal((s[8] / 16) as u8) == h.ty);
    assert((bits * 16) / 16 == bits) by (nonlinear_arith)
        requires
            bits < 16,
    {
    }
    assert((s[9] / 16) as u8 == bits);
    if bits & JUMBO_FRAME == JUMBO_FRAME {
        assert(e.len() == 14);
        assert(s[12] == e[12] && s[13] == e[13]);
        lemma_length_split(len);
        assert(be_val(s[0], s[1]) + s[12] * 0x1000000 + s[13] * 0x10000 == len);
    } else {
        assert(len <= 0xFFFF);
        vstd::arithmetic::div_mod::lemma_small_mod(len, 0x10000);
        assert(be_val(s[0], s[1]) == len);
        assert(e.len() == 12);
    }
}

/// Packet round trip: the bytes `write` produces for a well-formed
/// packet decode back to the same packet (its header in encoded form)
/// and consume exactly the packet's own bytes, whatever bytes follow.
pub proof fn lemma_packet_round_trip(p: Packet, rest: Seq<u8>)
    requires
        p.wf(),
    ensures
        spec_read_packet(p.spec_bytes() + rest) matches Some((h, c, used)) && h
            == p.header.spec_encoded_form(p.contents@.len()) && c == p.contents@ && used
            == p.spec_bytes().len(),
{
    let len = p.contents@.len();
    let e = p.header.spec_bytes(len);
    lemma_header_round_trip(p.header, len, p.contents@ + rest);
    assert(e + (p.contents@ + rest) =~= p.spec_bytes() + rest);
    let s = p.spec_bytes() + rest;
    assert(spec_read_header(s) == Some((p.header.spec_encoded_form(len), len, e.len() as nat)));
    assert(s.len() >= e.len() + len);
    assert(s.subrange(e.len() as int, e.len() + len as int) =~= p.contents@);
}

/// Streaming stability: once the pending buffer decodes to a packet,
/// further bytes arriving behind it change neither the packet nor how
/// many bytes it consumes. The demultiplexer may therefore decode as
/// soon as a packet is complete, whatever a later read appends.
pub proof fn lemma_read_packet_prefix_stable(s: Seq<u8>, t: Seq<u8>)
    requires
        spec_read_packet(s) is Some,
    ensures
        spec_read_packet(s + t) == spec_read_packet(s),
{
    assert(s.len() >= 12);
    assert forall|i: int| 0 <= i < s.len() implies (s + t)[i] == s[i] by {}
    let (h, c, used) = spec_read_packet(s)->Some_0;
    let (hh, len, hsize) = spec_read_header(s)->Some_0;
    assert(spec_read_header(s + t) == spec_read_header(s));
    assert((s + t).subrange(hsize as int, (hsize + len) as int) =~= s.subrange(
        hsize as int,
        (hsize + len) as int,
    ));
}

/// Routing-path matching is symmetric, and a header always matches
/// itself.
pub proof fn lemma_path_matches_symmetric_reflexive(a: PacketHeader, b: PacketHeader)
    ensures
        a.spec_path_matches(b) == b.spec_path_matches(a),
        a.spec_path_matches(a),
{
}

/// Every ordinal outside the four known packet types decodes as
/// `Request`.
pub proof fn lemma_unknown_ordinal_is_request(v: u8)
    requires
        v >= 4,
    ensures
        PacketType::spec_from_ordinal(v) == PacketType::Request,
{
}

/// The jumbo boundary: a content of 0xFFFF bytes still fits the base
/// length field and encodes without extension bytes, while one of
/// 0x10000 bytes takes exactly two extension bytes and decodes back to
/// the same length.
pub proof fn lemma_jumbo_boundary(h: PacketHeader)
    requires
        h.wf(),
        !h.options.spec_jumbo(),
    ensures
        h.spec_bytes(0xFFFF).len() == 12,
        h.spec_bytes(0x10000).len() == 14,
        spec_read_header(h.spec_bytes(0x10000)) matches Some((h2, len, used)) && len == 0x10000
            && used == 14,
{
    lemma_header_round_trip(h, 0x10000, Seq::<u8>::empty());
    assert(h.spec_bytes(0x10000) + Seq::<u8>::empty() =~= h.spec_bytes(0x10000));
}

} // verus!
