//! The discovery client: a sequential request/response session over one
//! packet stream, and the decision logic that resolves the real
//! upstream server's address (system DNS with a DNS-over-HTTPS
//! fallback, then a fixed identification exchange with the discovery
//! endpoint).

use vstd::prelude::*;

use crate::packet::{Packet, PacketHeader, PacketType};

verus! {

/// A packet carried as an error: the explicit protocol error answer
/// that aborts a discovery call.
#[derive(Debug, Clone)]
pub struct ErrorPacket(pub Packet);

impl ErrorPacket {
    /// The error code the packet's header carries.
    pub fn error_code(&self) -> (r: u16)
        ensures
            r == self.0.header.error,
    {
        self.0.header.error
    }
}

/// The ways a discovery call can fail.
#[derive(Debug, Clone)]
pub enum RetrieverError {
    /// The content of a response could not be decoded.
    Decode,
    /// The underlying stream failed.
    IO,
    /// The server answered with an explicit error packet.
    Packet(ErrorPacket),
    /// The stream ended before a matching response was seen.
    EarlyEof,
}

/// What the response loop does with one incoming packet.
#[derive(Debug, Copy, Clone, PartialEq, Eq, Structural)]
pub enum ResponseStep {
    /// A response on the request's path: the answer.
    Accept,
    /// Unrelated traffic (a notify, or a response on another path):
    /// silently dropped.
    Discard,
    /// An error packet: the call fails at once, whatever its path.
    Fail,
}

/// Whether `p` answers a request with header `req`: a response on the
/// same routing path.
pub open spec fn spec_is_match(req: PacketHeader, p: Packet) -> bool {
    p.header.ty is Response && p.header.spec_path_matches(req)
}

/// Whether `p` is an explicit error packet.
pub open spec fn spec_is_error(p: Packet) -> bool {
    p.header.ty is Error
}

/// Whether `p` ends the wait for a response to `req`, one way or the
/// other.
pub open spec fn spec_relevant(req: PacketHeader, p: Packet) -> bool {
    spec_is_match(req, p) || spec_is_error(p)
}

/// The outcome of scanning a packet stream for the response to a
/// request.
pub enum ExpectOutcome {
    /// The first response on the request's path.
    Matched(Packet),
    /// The first error packet came before any match.
    Failed(Packet),
    /// The stream ended with no match and no error seen.
    EndOfStream,
}

/// The outcome of the response wait over the whole sequence of packets
/// the stream yields: packets are taken in order; a matching response
/// ends the wait with that packet, an error packet ends it as a
/// failure, anything else is discarded.
pub open spec fn spec_expect_response(req: PacketHeader, s: Seq<Packet>) -> ExpectOutcome
    decreases s.len(),
{
    if s.len() == 0 {
        ExpectOutcome::EndOfStream
    } else if spec_is_match(req, s[0]) {
        ExpectOutcome::Matched(s[0])
    } else if spec_is_error(s[0]) {
        ExpectOutcome::Failed(s[0])
    } else {
        spec_expect_response(req, s.skip(1))
    }
}

/// Classifies one incoming packet against the outstanding request:
/// accept the first path-matching response, fail on any error packet
/// (whatever its path), and discard everything else — notifies and
/// responses on other paths.
pub fn response_step(request: &PacketHeader, header: &PacketHeader) -> (r: ResponseStep)
    ensures
        r is Accept <==> (header.ty is Response && header.spec_path_matches(*request)),
        r is Fail <==> header.ty is Error,
{
    match header.ty {
        PacketType::Response => {
            if header.path_matches(request) {
                ResponseStep::Accept
            } else {
                ResponseStep::Discard
            }
        },
        PacketType::Error => ResponseStep::Fail,
        _ => ResponseStep::Discard,
    }
}

/// Scans the packets a stream yielded, in order, for the response to
/// `request`: notifies and mismatched responses are discarded, the
/// first path-matching response is returned, the first error packet
/// fails the call carrying that packet, and a stream that ends first
/// fails with `EarlyEof`.
pub fn expect_response(request: &PacketHeader, incoming: &Vec<Packet>) -> (r: Result<
    Packet,
    RetrieverError,
>)
    ensures
        ({
            let o = spec_expect_response(*request, incoming@);
            match r {
                Ok(p) => o matches ExpectOutcome::Matched(q) && p.header == q.header && p.contents@
                    == q.contents@,
                Err(e) => match e {
                    RetrieverError::Packet(ep) => o matches ExpectOutcome::Failed(q) && ep.0.header
                        == q.header && ep.0.contents@ == q.contents@,
                    RetrieverError::EarlyEof => o is EndOfStream,
                    _ => false,
                },
            }
        }),
{
    let n: usize = incoming.len();
    let mut i: usize = 0;
    proof {
        assert(incoming@.skip(0) =~= incoming@);
    }
    while i < n
        invariant
            0 <= i <= n,
            n == incoming@.len(),
            spec_expect_response(*request, incoming@) == spec_expect_response(
                *request,
                incoming@.skip(i as int),
            ),
        decreases n - i,
    {
        let ghost pre = incoming@.skip(i as int);
        proof {
            assert(pre[0] == incoming@[i as int]);
            assert(pre.skip(1) =~= incoming@.skip(i as int + 1));
        }
        match response_step(request, &incoming[i].header) {
            ResponseStep::Accept => {
                return Ok(incoming[i].duplicate());
            },
            ResponseStep::Fail => {
                return Err(RetrieverError::Packet(ErrorPacket(incoming[i].duplicate())));
            },
            ResponseStep::Discard => {
                i = i + 1;
            },
        }
    }
    proof {
        assert(incoming@.skip(n as int) =~= Seq::<Packet>::empty());
    }
    Err(RetrieverError::EarlyEof)
}

/// The response wait, characterized by the first relevant packet: it
/// ends with `EndOfStream` exactly when no packet matches the request
/// and none is an error; otherwise the earliest packet that is a match
/// or an error decides the outcome — every packet before it is
/// discarded, a match is returned, and an error fails the call even
/// when its path differs from the request's.
pub proof fn lemma_expect_response_characterization(req: PacketHeader, s: Seq<Packet>)
    ensures
        (forall|i: int| 0 <= i < s.len() ==> !spec_relevant(req, s[i])) <==> spec_expect_response(
            req,
            s,
        ) is EndOfStream,
        spec_expect_response(req, s) matches ExpectOutcome::Matched(p) ==> exists|i: int|
            0 <= i < s.len() && p == s[i] && spec_is_match(req, s[i]) && (forall|j: int|
                0 <= j < i ==> !spec_relevant(req, s[j])),
        spec_expect_response(req, s) matches ExpectOutcome::Failed(p) ==> exists|i: int|
            0 <= i < s.len() && p == s[i] && spec_is_error(s[i]) && (forall|j: int|
                0 <= j < i ==> !spec_relevant(req, s[j])),
    decreases s.len(),
{
    if s.len() == 0 {
    } else if spec_relevant(req, s[0]) {
        assert(spec_relevant(req, s[0]));
    } else {
        lemma_expect_response_characterization(req, s.skip(1));
        assert(s.skip(1).len() == s.len() - 1);
        assert(forall|i: int| 0 <= i < s.len() - 1 ==> s.skip(1)[i] == s[i + 1]);
        let o = spec_expect_response(req, s);
        assert(o == spec_expect_response(req, s.skip(1)));
        match o {
            ExpectOutcome::Matched(p) => {
                let i = choose|i: int|
                    0 <= i < s.skip(1).len() && p == s.skip(1)[i] && spec_is_match(
                        req,
                        s.skip(1)[i],
                    ) && (forall|j: int| 0 <= j < i ==> !spec_relevant(req, s.skip(1)[j]));
                assert(p == s[i + 1]);
                assert(spec_is_match(req, s[i + 1]));
                assert forall|j: int| 0 <= j < i + 1 implies !spec_relevant(req, s[j]) by {
                    if j > 0 {
                        assert(s[j] == s.skip(1)[j - 1]);
                        assert(!spec_relevant(req, s.skip(1)[j - 1]));
                    }
                }
                assert(0 <= i + 1 < s.len() && p == s[i + 1] && spec_is_match(req, s[i + 1]) && (
                forall|j: int| 0 <= j < i + 1 ==> !spec_relevant(req, s[j])));
            },
            ExpectOutcome::Failed(p) => {
                let i = choose|i: int|
                    0 <= i < s.skip(1).len() && p == s.skip(1)[i] && spec_is_error(s.skip(1)[i]) && (
                    forall|j: int| 0 <= j < i ==> !spec_relevant(req, s.skip(1)[j]));
                assert(p == s[i + 1]);
                assert(spec_is_error(s[i + 1]));
                assert forall|j: int| 0 <= j < i + 1 implies !spec_relevant(req, s[j]) by {
                    if j > 0 {
                        assert(s[j] == s.skip(1)[j - 1]);
                        assert(!spec_relevant(req, s.skip(1)[j - 1]));
                    }
                }
                assert(0 <= i + 1 < s.len() && p == s[i + 1] && spec_is_error(s[i + 1]) && (forall|
                    j: int,
                |
                    0 <= j < i + 1 ==> !spec_relevant(req, s[j])));
            },
            ExpectOutcome::EndOfStream => {
                assert(forall|i: int|
                    0 <= i < s.len() ==> !spec_relevant(req, s[i])) by {
                    assert(forall|i: int|
                        1 <= i < s.len() ==> s[i] == s.skip(1)[i - 1] && !spec_relevant(
                            req,
                            s.skip(1)[i - 1],
                        ));
                }
            },
        }
    }
}

/// A discovery session: the id the next request will carry. Requests
/// are sequential — one outstanding request at a time — so the id also
/// counts the requests already issued.
pub struct OfficialSession {
    id: u16,
}

impl OfficialSession {
    /// The id the next request will be built with.
    pub closed spec fn spec_id(self) -> u16 {
        self.id
    }

    /// A fresh session: ids start at 0.
    pub fn new() -> (s: Self)
        ensures
            s.spec_id() == 0,
    {
        OfficialSession { id: 0 }
    }

    /// Builds the next request packet, carrying the session's current
    /// id as its sequence number, and advances the id by exactly one —
    /// so the ids of a session's requests run 0, 1, 2, ... and no two
    /// share one (`lemma_session_ids_distinct`). The bound on the id is
    /// the u16 wire field's own limit.
    pub fn request_raw(&mut self, component: u16, command: u16, contents: Vec<u8>) -> (p: Packet)
        requires
            old(self).spec_id() < 0xFFFF,
        ensures
            p.header == PacketHeader::spec_request(old(self).spec_id(), component, command),
            p.contents@ == contents@,
            final(self).spec_id() == old(self).spec_id() + 1,
    {
        let p = Packet::new_request(self.id, component, command, contents);
        self.id = self.id + 1;
        p
    }

    /// Builds the next request packet with empty content; same id
    /// discipline as `request_raw`.
    pub fn request_empty_raw(&mut self, component: u16, command: u16) -> (p: Packet)
        requires
            old(self).spec_id() < 0xFFFF,
        ensures
            p.header == PacketHeader::spec_request(old(self).spec_id(), component, command),
            p.contents@ == Seq::<u8>::empty(),
            final(self).spec_id() == old(self).spec_id() + 1,
    {
        let p = Packet::request_empty(self.id, component, command);
        self.id = self.id + 1;
        p
    }
}

/// Request ids within one session: starting at 0 and advancing by
/// exactly one per request, the k-th request carries id k, so ids are
/// strictly increasing and no two requests share one.
pub proof fn lemma_session_ids_distinct(ids: Seq<u16>)
    requires
        ids.len() > 0 ==> ids[0] == 0,
        forall|k: int| 0 <= k < ids.len() - 1 ==> #[trigger] ids[k + 1] == ids[k] + 1,
    ensures
        forall|k: int| 0 <= k < ids.len() ==> ids[k] == k,
        forall|a: int, b: int| 0 <= a < b < ids.len() ==> ids[a] < ids[b],
{
    assert forall|k: int| 0 <= k < ids.len() implies ids[k] == k by {
        lemma_ids_are_indices(ids, k);
    }
}

/// The k-th id of a run that starts at 0 and advances by one is k.
proof fn lemma_ids_are_indices(ids: Seq<u16>, k: int)
    requires
        0 <= k < ids.len(),
        ids.len() > 0 ==> ids[0] == 0,
        forall|j: int| 0 <= j < ids.len() - 1 ==> #[trigger] ids[j + 1] == ids[j] + 1,
    ensures
        ids[k] == k,
    decreases k,
{
    if k > 0 {
        lemma_ids_are_indices(ids, k - 1);
        assert(ids[(k - 1) + 1] == ids[k - 1] + 1);
    }
}

/// The hostname whose resolution starts discovery.
pub fn redirector_host() -> (r: &'static str)
    ensures
        r@ == "gosredirector.ea.com"@,
{
    "gosredirector.ea.com"
}

/// The fixed port of the discovery endpoint.
pub const REDIRECT_PORT: u16 = 42127;

/// The component of the discovery request's routing path.
pub const REDIRECTOR_COMPONENT: u16 = 0x5;

/// The command of the discovery request's routing path.
pub const GET_SERVER_INSTANCE: u16 = 0x1;

// What each serializer call of the external structured-value codec
// appends for a tagged field: a function of the tag and the value
// alone.

/// The bytes the codec writes for a tagged string field.
pub uninterp spec fn tdf_tagged_str(tag: Seq<u8>, value: Seq<char>) -> Seq<u8>;

/// The bytes the codec writes for a tagged 8 bit integer field.
pub uninterp spec fn tdf_tagged_u8(tag: Seq<u8>, value: u8) -> Seq<u8>;

/// The bytes the codec writes for a tagged 16 bit integer field.
pub uninterp spec fn tdf_tagged_u16(tag: Seq<u8>, value: u16) -> Seq<u8>;

/// The bytes the codec writes for a tagged 32 bit integer field.
pub uninterp spec fn tdf_tagged_u32(tag: Seq<u8>, value: u32) -> Seq<u8>;

/// The bytes the codec writes for a tagged union left unset.
pub uninterp spec fn tdf_union_unset(tag: Seq<u8>) -> Seq<u8>;

/// Relies on tdf's `TdfSerializer::tag_str` for `Vec<u8>`: appends the
/// tagged string field; the bytes depend on the tag and value alone.
/// Tags of one to four bytes never panic.
#[verifier::external_body]
fn write_tag_str(w: &mut Vec<u8>, tag: &[u8], value: &str)
    requires
        1 <= tag@.len() <= 4,
    ensures
        final(w)@ == old(w)@ + tdf_tagged_str(tag@, value@),
{
    tdf::writer::TdfSerializer::tag_str(w, tag, value)
}

/// Relies on tdf's `TdfSerializer::tag_u8` for `Vec<u8>`: appends the
/// tagged integer field; the bytes depend on the tag and value alone.
/// Tags of one to four bytes never panic.
#[verifier::external_body]
fn write_tag_u8(w: &mut Vec<u8>, tag: &[u8], value: u8)
    requires
        1 <= tag@.len() <= 4,
    ensures
        final(w)@ == old(w)@ + tdf_tagged_u8(tag@, value),
{
    tdf::writer::TdfSerializer::tag_u8(w, tag, value)
}

/// Relies on tdf's `TdfSerializer::tag_u16` for `Vec<u8>`: appends the
/// tagged integer field; the bytes depend on the tag and value alone.
/// Tags of one to four bytes never panic.
#[verifier::external_body]
fn write_tag_u16(w: &mut Vec<u8>, tag: &[u8], value: u16)
    requires
        1 <= tag@.len() <= 4,
    ensures
        final(w)@ == old(w)@ + tdf_tagged_u16(tag@, value),
{
    tdf::writer::TdfSerializer::tag_u16(w, tag, value)
}

/// Relies on tdf's `TdfSerializer::tag_u32` for `Vec<u8>`: appends the
/// tagged integer field; the bytes depend on the tag and value alone.
/// Tags of one to four bytes never panic.
#[verifier::external_body]
fn write_tag_u32(w: &mut Vec<u8>, tag: &[u8], value: u32)
    requires
        1 <= tag@.len() <= 4,
    ensures
        final(w)@ == old(w)@ + tdf_tagged_u32(tag@, value),
{
    tdf::writer::TdfSerializer::tag_u32(w, tag, value)
}

/// Relies on tdf's `TdfSerializer::tag_union_unset` for `Vec<u8>`:
/// appends the tagged-union header with the unset key; the bytes
/// depend on the tag alone. Tags of one to four bytes never panic.
#[verifier::external_body]
fn write_tag_union_unset(w: &mut Vec<u8>, tag: &[u8])
    requires
        1 <= tag@.len() <= 4,
    ensures
        final(w)@ == old(w)@ + tdf_union_unset(tag@),
{
    tdf::writer::TdfSerializer::tag_union_unset(w, tag)
}

/// The fixed identification payload sent to the discovery endpoint:
/// client build metadata, field by tagged field.
pub struct InstanceRequest;

// The wire tags of the payload and response fields, as their ASCII
// bytes (the codec takes tags of one to four bytes).
/// The tag `BSDK`.
pub open spec fn spec_tag_bsdk() -> Seq<u8> {
    seq![0x42u8, 0x53u8, 0x44u8, 0x4Bu8]
}

/// The tag `BTIM`.
pub open spec fn spec_tag_btim() -> Seq<u8> {
    seq![0x42u8, 0x54u8, 0x49u8, 0x4Du8]
}

/// The tag `CLNT`.
pub open spec fn spec_tag_clnt() -> Seq<u8> {
    seq![0x43u8, 0x4Cu8, 0x4Eu8, 0x54u8]
}

/// The tag `CLTP`.
pub open spec fn spec_tag_cltp() -> Seq<u8> {
    seq![0x43u8, 0x4Cu8, 0x54u8, 0x50u8]
}

/// The tag `CSKU`.
pub open spec fn spec_tag_csku() -> Seq<u8> {
    seq![0x43u8, 0x53u8, 0x4Bu8, 0x55u8]
}

/// The tag `CVER`.
pub open spec fn spec_tag_cver() -> Seq<u8> {
    seq![0x43u8, 0x56u8, 0x45u8, 0x52u8]
}

/// The tag `DSDK`.
pub open spec fn spec_tag_dsdk() -> Seq<u8> {
    seq![0x44u8, 0x53u8, 0x44u8, 0x4Bu8]
}

/// The tag `ENV`.
pub open spec fn spec_tag_env() -> Seq<u8> {
    seq![0x45u8, 0x4Eu8, 0x56u8]
}

/// The tag `FPID`.
pub open spec fn spec_tag_fpid() -> Seq<u8> {
    seq![0x46u8, 0x50u8, 0x49u8, 0x44u8]
}

/// The tag `LOC`.
pub open spec fn spec_tag_loc() -> Seq<u8> {
    seq![0x4Cu8, 0x4Fu8, 0x43u8]
}

/// The tag `NAME`.
pub open spec fn spec_tag_name() -> Seq<u8> {
    seq![0x4Eu8, 0x41u8, 0x4Du8, 0x45u8]
}

/// The tag `PLAT`.
pub open spec fn spec_tag_plat() -> Seq<u8> {
    seq![0x50u8, 0x4Cu8, 0x41u8, 0x54u8]
}

/// The tag `PROF`.
pub open spec fn spec_tag_prof() -> Seq<u8> {
    seq![0x50u8, 0x52u8, 0x4Fu8, 0x46u8]
}

/// The tag `HOST`.
pub open spec fn spec_tag_host() -> Seq<u8> {
    seq![0x48u8, 0x4Fu8, 0x53u8, 0x54u8]
}

/// The tag `IP`.
pub open spec fn spec_tag_ip() -> Seq<u8> {
    seq![0x49u8, 0x50u8]
}

/// The tag `PORT`.
pub open spec fn spec_tag_port() -> Seq<u8> {
    seq![0x50u8, 0x4Fu8, 0x52u8, 0x54u8]
}

/// The exact bytes of the encoded identification payload: the thirteen
/// tagged fields, in tag order.
pub open spec fn spec_instance_request_bytes() -> Seq<u8> {
    tdf_tagged_str(spec_tag_bsdk(), "3.15.6.0"@) + tdf_tagged_str(
        spec_tag_btim(),
        "Dec 21 2012 12:47:10"@,
    ) + tdf_tagged_str(spec_tag_clnt(), "MassEffect3-pc"@) + tdf_tagged_u8(spec_tag_cltp(), 0)
        + tdf_tagged_str(spec_tag_csku(), "134845"@) + tdf_tagged_str(
        spec_tag_cver(),
        "05427.124"@,
    ) + tdf_tagged_str(spec_tag_dsdk(), "8.14.7.1"@) + tdf_tagged_str(spec_tag_env(), "prod"@)
        + tdf_union_unset(spec_tag_fpid()) + tdf_tagged_u32(spec_tag_loc(), 0x656e4e5a)
        + tdf_tagged_str(spec_tag_name(), "masseffect-3-pc"@) + tdf_tagged_str(
        spec_tag_plat(),
        "Windows"@,
    ) + tdf_tagged_str(spec_tag_prof(), "standardSecure_v3"@)
}

impl InstanceRequest {
    /// Appends the encoded identification payload through the external
    /// codec, field by field.
    pub fn serialize(&self, w: &mut Vec<u8>)
        ensures
            final(w)@ == old(w)@ + spec_instance_request_bytes(),
    {
        write_tag_str(w, vec![0x42u8, 0x53u8, 0x44u8, 0x4Bu8].as_slice(), "3.15.6.0");
        write_tag_str(w, vec![0x42u8, 0x54u8, 0x49u8, 0x4Du8].as_slice(), "Dec 21 2012 12:47:10");
        write_tag_str(w, vec![0x43u8, 0x4Cu8, 0x4Eu8, 0x54u8].as_slice(), "MassEffect3-pc");
        write_tag_u8(w, vec![0x43u8, 0x4Cu8, 0x54u8, 0x50u8].as_slice(), 0);
        write_tag_str(w, vec![0x43u8, 0x53u8, 0x4Bu8, 0x55u8].as_slice(), "134845");
        write_tag_str(w, vec![0x43u8, 0x56u8, 0x45u8, 0x52u8].as_slice(), "05427.124");
        write_tag_str(w, vec![0x44u8, 0x53u8, 0x44u8, 0x4Bu8].as_slice(), "8.14.7.1");
        write_tag_str(w, vec![0x45u8, 0x4Eu8, 0x56u8].as_slice(), "prod");
        write_tag_union_unset(w, vec![0x46u8, 0x50u8, 0x49u8, 0x44u8].as_slice());
        write_tag_u32(w, vec![0x4Cu8, 0x4Fu8, 0x43u8].as_slice(), 0x656e4e5a);
        write_tag_str(w, vec![0x4Eu8, 0x41u8, 0x4Du8, 0x45u8].as_slice(), "masseffect-3-pc");
        write_tag_str(w, vec![0x50u8, 0x4Cu8, 0x41u8, 0x54u8].as_slice(), "Windows");
        write_tag_str(w, vec![0x50u8, 0x52u8, 0x4Fu8, 0x46u8].as_slice(), "standardSecure_v3");
        proof {
            assert(w@ =~= old(w)@ + spec_instance_request_bytes());
        }
    }
}

/// A server host as discovery reports it: either a DNS-resolvable
/// name, or a literal IPv4 address carried as its 32 bit value, each
/// keeping the wire tag it was decoded from (`HOST` vs `IP`).
#[derive(Debug, Clone)]
pub enum InstanceHost {
    /// A DNS name (wire tag `HOST`).
    Host(String),
    /// A literal IPv4 address (wire tag `IP`).
    Address(u32),
}

/// The dotted-decimal text of an IPv4 address given as its 32 bit
/// value, highest octet first.
pub open spec fn spec_ipv4(ip: u32) -> Seq<char> {
    crate::debug::spec_dec((ip / 0x1000000) as nat) + seq!['.'] + crate::debug::spec_dec(
        ((ip / 0x10000) % 256) as nat,
    ) + seq!['.'] + crate::debug::spec_dec(((ip / 256) % 256) as nat) + seq!['.']
        + crate::debug::spec_dec((ip % 256) as nat)
}

/// The dotted-decimal form of an IPv4 address.
pub fn ipv4_string(ip: u32) -> (r: String)
    ensures
        r@ == spec_ipv4(ip),
{
    proof {
        reveal_strlit(".");
    }
    let mut s = String::new();
    crate::debug::append_dec_u32(&mut s, ip / 0x1000000);
    s.append(".");
    crate::debug::append_dec_u32(&mut s, (ip / 0x10000) % 256);
    s.append(".");
    crate::debug::append_dec_u32(&mut s, (ip / 256) % 256);
    s.append(".");
    crate::debug::append_dec_u32(&mut s, ip % 256);
    proof {
        assert(s@ =~= spec_ipv4(ip));
    }
    s
}

impl InstanceHost {
    /// The host as text: the name itself, or the dotted-decimal form
    /// of the literal address.
    pub open spec fn spec_string(self) -> Seq<char> {
        match self {
            InstanceHost::Host(v) => v@,
            InstanceHost::Address(ip) => spec_ipv4(ip),
        }
    }

    /// Turns the host into its string form.
    pub fn into_string(self) -> (r: String)
        ensures
            r@ == self.spec_string(),
    {
        match self {
            InstanceHost::Host(v) => v,
            InstanceHost::Address(ip) => ipv4_string(ip),
        }
    }

    /// The bytes the codec writes for this host: a tagged string under
    /// `HOST` for a name, a tagged 32 bit integer under `IP` for a
    /// literal address.
    pub open spec fn spec_serialized(self) -> Seq<u8> {
        match self {
            InstanceHost::Host(v) => tdf_tagged_str(spec_tag_host(), v@),
            InstanceHost::Address(ip) => tdf_tagged_u32(spec_tag_ip(), ip),
        }
    }

    /// Appends the encoded host field through the external codec.
    pub fn serialize(&self, w: &mut Vec<u8>)
        ensures
            final(w)@ == old(w)@ + self.spec_serialized(),
    {
        match self {
            InstanceHost::Host(v) => write_tag_str(
                w,
                vec![0x48u8, 0x4Fu8, 0x53u8, 0x54u8].as_slice(),
                v.as_str(),
            ),
            InstanceHost::Address(ip) => write_tag_u32(
                w,
                vec![0x49u8, 0x50u8].as_slice(),
                *ip,
            ),
        }
    }
}

/// Networking information for an instance: the host and the port.
#[derive(Debug, Clone)]
pub struct InstanceAddress {
    /// The host address.
    pub host: InstanceHost,
    /// The port.
    pub port: u16,
}

impl InstanceAddress {
    /// The bytes the codec writes for this address as a group body:
    /// the host field, the tagged port, and the group terminator.
    pub open spec fn spec_serialized(self) -> Seq<u8> {
        self.host.spec_serialized() + tdf_tagged_u16(spec_tag_port(), self.port) + seq![0u8]
    }

    /// Appends the encoded address as a group body: host, port, and
    /// the closing group terminator byte.
    pub fn serialize(&self, w: &mut Vec<u8>)
        ensures
            final(w)@ == old(w)@ + self.spec_serialized(),
    {
        self.host.serialize(w);
        write_tag_u16(w, vec![0x50u8, 0x4Fu8, 0x52u8, 0x54u8].as_slice(), self.port);
        w.push(0);
        proof {
            assert(w@ =~= old(w)@ + self.spec_serialized());
        }
    }
}

/// The tagged union carrying an instance's networking information.
#[derive(Debug, Clone)]
pub enum InstanceNet {
    /// A concrete address.
    InstanceAddress(InstanceAddress),
    /// The union was present but left unset.
    Unset,
    /// The union was absent.
    Default,
}

/// Details about an instance, as the discovery response reports them.
#[derive(Debug, Clone)]
pub struct InstanceDetails {
    /// The networking information for the instance.
    pub net: InstanceNet,
    /// Whether the host requires an encrypted (secure) transport.
    pub secure: bool,
    /// The cross-domain flag; forwarded only, never interpreted.
    pub xdns: bool,
}

/// Connection details for the resolved official server instance:
/// created once at relay startup, immutable afterwards, shared
/// read-only by every accepted connection.
#[derive(Debug, Clone)]
pub struct OfficialInstance {
    /// The host address of the official server.
    pub host: String,
    /// The port of the official server.
    pub port: u16,
}

/// The ways obtaining the official instance can fail.
#[derive(Debug, Clone)]
pub enum InstanceError {
    /// The DNS-over-HTTPS lookup request failed.
    LookupRequest,
    /// The DNS-over-HTTPS answer list was empty.
    MissingValue,
    /// Connecting the encrypted transport failed.
    Blaze,
    /// The discovery exchange itself failed.
    InstanceRequest(RetrieverError),
    /// The discovery response carried no concrete address.
    MissingAddress,
}

impl OfficialInstance {
    /// Extracts the official instance from a decoded discovery
    /// response: the concrete address variant yields its host (as a
    /// string) and port; anything else is a response with a missing
    /// address.
    pub fn from_details(details: InstanceDetails) -> (r: Result<OfficialInstance, InstanceError>)
        ensures
            details.net matches InstanceNet::InstanceAddress(addr) ==> (r matches Ok(o) && o.host@
                == addr.host.spec_string() && o.port == addr.port),
            !(details.net is InstanceAddress) ==> (r matches Err(e) && e is MissingAddress),
    {
        match details.net {
            InstanceNet::InstanceAddress(addr) => {
                let port = addr.port;
                let host = addr.host.into_string();
                Ok(OfficialInstance { host, port })
            },
            _ => Err(InstanceError::MissingAddress),
        }
    }
}

/// The verdict on a system DNS resolution: a loopback address is
/// treated as absent — it points at a local override, not a usable
/// upstream — so the caller falls through to the DNS-over-HTTPS
/// lookup. Any other address is accepted in its dotted-decimal form.
pub fn accept_dns_ip(ip: Option<u32>) -> (r: Option<String>)
    ensures
        ip is None ==> r is None,
        ip matches Some(v) ==> if v / 0x1000000 == 127 {
            r is None
        } else {
            r matches Some(s) && s@ == spec_ipv4(v)
        },
{
    match ip {
        None => None,
        Some(v) => {
            if v / 0x1000000 == 127 {
                None
            } else {
                Some(ipv4_string(v))
            }
        },
    }
}

/// Picks the address from a DNS-over-HTTPS answer list: the last
/// entry's data, or nothing when the list is empty.
pub fn select_doh_answer(answers: &Vec<String>) -> (r: Option<String>)
    ensures
        answers@.len() == 0 ==> r is None,
        answers@.len() > 0 ==> (r matches Some(s) && s@ == answers@[answers@.len() - 1]@),
{
    let n: usize = answers.len();
    if n == 0 {
        None
    } else {
        Some(answers[n - 1].clone())
    }
}

} // verus!
