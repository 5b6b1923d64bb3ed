//! The Art-Net protocol: DMX output datagrams, node discovery by poll and poll
//! reply, and the ports that discovery finds.
use vstd::prelude::*;

use crate::bytes::push_all;
use crate::MAX_UNIVERSE_SIZE;
use artnet_protocol::{ArtCommand, Poll};

verus! {

/// The UDP port of Art-Net.
pub const PORT: u16 = 6454;

/// The first eight bytes of every Art-Net datagram: "Art-Net" and a zero.
pub open spec fn artnet_header() -> Seq<u8> {
    seq![0x41u8, 0x72u8, 0x74u8, 0x2du8, 0x4eu8, 0x65u8, 0x74u8, 0x00u8]
}

/// Opcode of a DMX output datagram.
pub const OP_OUTPUT: u16 = 0x5000;

/// The two bytes of `v`, low byte first.
pub open spec fn le_bytes(v: u16) -> Seq<u8> {
    seq![(v % 256) as u8, (v / 256) as u8]
}

/// The two bytes of `v`, high byte first.
pub open spec fn be_bytes(v: u16) -> Seq<u8> {
    seq![(v / 256) as u8, (v % 256) as u8]
}

/// The length that an output datagram declares for `n` bytes of data: rounded
/// up to an even number.
pub open spec fn padded_len(n: nat) -> nat {
    if n % 2 == 1 { n + 1 } else { n }
}

/// The DMX output datagram that carries `data` to `port_address`: header,
/// opcode, protocol version 14, sequence 0, physical port 0, the port address
/// low byte first, the padded length high byte first, the data, and one zero
/// byte where the data's length is odd.
pub open spec fn output_datagram(port_address: u16, data: Seq<u8>) -> Seq<u8> {
    artnet_header() + le_bytes(OP_OUTPUT) + seq![0u8, 14u8, 0u8, 0u8] + le_bytes(port_address)
        + be_bytes(padded_len(data.len()) as u16) + data + if data.len() % 2 == 1 {
        seq![0u8]
    } else {
        Seq::<u8>::empty()
    }
}

/// An output datagram declares an even length, and ends with exactly one zero
/// byte after the data when the data's length is odd and with none when it is
/// even.
pub proof fn lemma_output_padding(port_address: u16, data: Seq<u8>)
    requires
        1 <= data.len() <= MAX_UNIVERSE_SIZE,
    ensures
        ({
            let d = output_datagram(port_address, data);
            let declared = d[16] as int * 256 + d[17] as int;
            &&& declared % 2 == 0
            &&& declared == data.len() + (data.len() % 2)
            &&& d.subrange(18, 18 + data.len() as int) == data
            &&& d.len() == 18 + declared
            &&& data.len() % 2 == 1 ==> d[18 + data.len() as int] == 0
        }),
{
    let d = output_datagram(port_address, data);
    assert(d.subrange(18, 18 + data.len() as int) =~= data);
}

/// Why DMX data cannot go into an output datagram.
#[derive(Debug, Clone, Copy, PartialEq, Eq, Structural)]
pub enum FrameError {
    /// There is no data.
    Empty,
    /// There are more than 512 bytes of data; the length is given.
    TooLong(usize),
}

fn write_u8(w: &mut Vec<u8>, v: u8)
    ensures
        final(w)@ == old(w)@ + seq![v],
{
    let buf: [u8; 1] = [v];
    push_all(w, buf.as_slice());
    proof {
        assert(buf@ == seq![v]);
    }
}

/// Append to `w` the DMX output datagram that carries `buf` to
/// `arnet_port_address`. Empty data and data over 512 bytes are refused, and
/// `w` is then left as it was.
pub fn write(w: &mut Vec<u8>, arnet_port_address: u16, buf: &[u8]) -> (r: Result<(), FrameError>)
    ensures
        buf@.len() == 0 ==> r == Err::<(), FrameError>(FrameError::Empty),
        buf@.len() > MAX_UNIVERSE_SIZE ==> r == Err::<(), FrameError>(FrameError::TooLong(buf@.len() as usize)),
        r is Ok <==> 1 <= buf@.len() <= MAX_UNIVERSE_SIZE,
        r is Ok ==> final(w)@ == old(w)@ + output_datagram(arnet_port_address, buf@),
        r is Err ==> final(w)@ == old(w)@,
{
    if buf.len() == 0 {
        return Err(FrameError::Empty);
    }
    if buf.len() > MAX_UNIVERSE_SIZE {
        return Err(FrameError::TooLong(buf.len()));
    }
    let ghost start = w@;
    let header: [u8; 8] = [0x41, 0x72, 0x74, 0x2d, 0x4e, 0x65, 0x74, 0x00];
    push_all(w, header.as_slice());
    // DMX output opcode, low byte first.
    write_u8(w, (OP_OUTPUT % 256) as u8);
    write_u8(w, (OP_OUTPUT / 256) as u8);
    // Protocol version.
    write_u8(w, 0);
    write_u8(w, 14);
    // Sequence number: sequencing is not used.
    write_u8(w, 0);
    // Physical input port: not used.
    write_u8(w, 0);
    // Destination port address, low byte first.
    write_u8(w, (arnet_port_address % 256) as u8);
    write_u8(w, (arnet_port_address / 256) as u8);
    let add_pad_byte = buf.len() % 2 != 0;
    // Data length rounded up to a multiple of 2, high byte first.
    let padded: u16 = buf.len() as u16 + if add_pad_byte { 1u16 } else { 0u16 };
    write_u8(w, (padded / 256) as u8);
    write_u8(w, (padded % 256) as u8);
    push_all(w, buf);
    if add_pad_byte {
        write_u8(w, 0);
    }
    proof {
        assert(header@ == artnet_header());
        assert(padded as nat == padded_len(buf@.len()));
        assert(w@ == start + output_datagram(arnet_port_address, buf@));
    }
    Ok(())
}

/// The Poll datagram that asks every node to answer: header, opcode 0x2000,
/// protocol version 14, no talk-to-me flags, diagnostics priority 0x80.
pub open spec fn poll_datagram_bytes() -> Seq<u8> {
    artnet_header() + seq![0x00u8, 0x20u8, 0u8, 14u8, 0u8, 0x80u8]
}

/// Relies on artnet_protocol's `Poll::default` (version 14, no talk-to-me
/// flags, diagnostics priority 0x80) and `ArtCommand::write_to_buffer`, which
/// writes the header, the opcode and the poll's fields and cannot fail.
#[verifier::external_body]
fn encode_default_poll() -> (r: Option<Vec<u8>>)
    ensures
        r is Some,
        r.unwrap()@ == poll_datagram_bytes(),
{
    ArtCommand::Poll(Poll::default()).write_to_buffer().ok()
}

/// The Poll datagram to broadcast for discovery.
pub fn poll_datagram() -> (r: Vec<u8>)
    ensures
        r@ == poll_datagram_bytes(),
{
    match encode_default_poll() {
        Some(bytes) => bytes,
        None => Vec::new(),
    }
}

/// The fields of a poll reply that discovery reads: the node's IPv4 address,
/// its port address (high byte first) and its two fixed-width names.
pub struct PollReplyView {
    pub address: Seq<u8>,
    pub port_address: Seq<u8>,
    pub short_name: Seq<u8>,
    pub long_name: Seq<u8>,
}

/// Width of the short name field of a poll reply.
pub const SHORT_NAME_LEN: usize = 18;

/// Width of the long name field of a poll reply.
pub const LONG_NAME_LEN: usize = 64;

/// Fewest bytes that a poll reply datagram holds.
pub const POLL_REPLY_LEN: usize = 239;

/// What a datagram says as a poll reply: one of at least 239 bytes, with the
/// header and opcode 0x2100, holds the address at byte 10, the port address at
/// byte 18, the short name at byte 26 and the long name at byte 44.
pub open spec fn parsed_poll_reply(b: Seq<u8>) -> Option<PollReplyView> {
    if b.len() >= POLL_REPLY_LEN && b.subrange(0, 8) == artnet_header() && b[8] == 0x00u8 && b[9]
        == 0x21u8 {
        Some(
            PollReplyView {
                address: b.subrange(10, 14),
                port_address: b.subrange(18, 20),
                short_name: b.subrange(26, 44),
                long_name: b.subrange(44, 108),
            },
        )
    } else {
        None
    }
}

/// The fields of a poll reply that discovery reads.
#[derive(Debug, Clone)]
pub struct PollReplyFields {
    pub address: [u8; 4],
    pub port_address: [u8; 2],
    pub short_name: Vec<u8>,
    pub long_name: Vec<u8>,
}

impl View for PollReplyFields {
    type V = PollReplyView;

    open spec fn view(&self) -> PollReplyView {
        PollReplyView {
            address: self.address@,
            port_address: self.port_address@,
            short_name: self.short_name@,
            long_name: self.long_name@,
        }
    }
}

/// Relies on artnet_protocol's `ArtCommand::from_buffer`: a datagram of at
/// least 14 bytes with the header is read by its little-endian opcode; a poll
/// reply (0x2100) is read field by field from fixed offsets and needs 229 bytes
/// after the opcode; other opcodes give other commands.
#[verifier::external_body]
fn parse_poll_reply(b: &[u8]) -> (r: Option<PollReplyFields>)
    ensures
        r is Some ==> parsed_poll_reply(b@) == Some(r.unwrap()@),
        r is None ==> parsed_poll_reply(b@) is None,
{
    match ArtCommand::from_buffer(b) {
        Ok(ArtCommand::PollReply(reply)) => Some(
            PollReplyFields {
                address: reply.address.octets(),
                port_address: reply.port_address,
                short_name: reply.short_name.to_vec(),
                long_name: reply.long_name.to_vec(),
            },
        ),
        _ => None,
    }
}

/// The bytes of `b` ahead of its first zero byte, or all of them.
pub open spec fn until_nul(b: Seq<u8>) -> Seq<u8>
    decreases b.len(),
{
    if b.len() == 0 {
        b
    } else if b[0] == 0 {
        Seq::empty()
    } else {
        seq![b[0]] + until_nul(b.drop_first())
    }
}

proof fn lemma_until_nul_at(b: Seq<u8>, i: int)
    requires
        0 <= i <= b.len(),
        forall|j: int| 0 <= j < i ==> b[j] != 0,
        i == b.len() || b[i] == 0,
    ensures
        until_nul(b) == b.subrange(0, i),
    decreases b.len(),
{
    if b.len() == 0 {
        assert(b.subrange(0, i) =~= b);
    } else if i == 0 {
        assert(b.subrange(0, 0) =~= Seq::<u8>::empty());
    } else {
        lemma_until_nul_at(b.drop_first(), i - 1);
        assert(b.subrange(0, i) =~= seq![b[0]] + b.drop_first().subrange(0, i - 1));
    }
}

pub open spec fn is_ascii_bytes(b: Seq<u8>) -> bool {
    forall|i: int| 0 <= i < b.len() ==> b[i] < 128
}

pub open spec fn char_of(b: u8) -> char {
    b as char
}

/// Each byte as the character of that code.
pub open spec fn ascii_chars(b: Seq<u8>) -> Seq<char> {
    Seq::new(b.len(), |i: int| char_of(b[i]))
}

/// What `String::from_utf8_lossy` makes of `b`.
pub uninterp spec fn utf8_lossy(b: Seq<u8>) -> Seq<char>;

/// Relies on `String::from_utf8_lossy`: invalid sequences become U+FFFD, and
/// valid UTF-8, ASCII among it, comes out as the same text.
#[verifier::external_body]
fn lossy_string(b: &[u8]) -> (r: String)
    ensures
        r@ == utf8_lossy(b@),
        is_ascii_bytes(b@) ==> r@ == ascii_chars(b@),
{
    String::from_utf8_lossy(b).into_owned()
}

/// The text of a name field: ASCII as it stands, other bytes as
/// `String::from_utf8_lossy` reads them.
pub open spec fn name_text(b: Seq<u8>) -> Seq<char> {
    if is_ascii_bytes(b) {
        ascii_chars(b)
    } else {
        utf8_lossy(b)
    }
}

/// The text of a zero-terminated name field: the bytes ahead of the first zero.
pub fn null_terminated_string_lossy(bytes: &[u8]) -> (r: String)
    ensures
        r@ == name_text(until_nul(bytes@)),
{
    let mut null_pos: usize = 0;
    while null_pos < bytes.len() && bytes[null_pos] != 0
        invariant
            null_pos <= bytes@.len(),
            forall|j: int| 0 <= j < null_pos ==> bytes@[j] != 0,
        decreases bytes@.len() - null_pos,
    {
        null_pos = null_pos + 1;
    }
    proof {
        lemma_until_nul_at(bytes@, null_pos as int);
    }
    lossy_string(&bytes[0..null_pos])
}

/// An Art-Net node's output as discovery reports it.
pub struct ArtnetParamsView {
    pub addr: Seq<u8>,
    pub port_address: u16,
    pub short_name: Seq<char>,
    pub long_name: Seq<char>,
}

/// An Art-Net node's output: its IPv4 address, the port address of the
/// output, and the node's short and long names.
#[derive(Debug, Clone)]
pub struct ArtnetDmxPortParams {
    pub addr: [u8; 4],
    pub port_address: u16,
    pub short_name: String,
    pub long_name: String,
}

impl View for ArtnetDmxPortParams {
    type V = ArtnetParamsView;

    open spec fn view(&self) -> ArtnetParamsView {
        ArtnetParamsView {
            addr: self.addr@,
            port_address: self.port_address,
            short_name: self.short_name@,
            long_name: self.long_name@,
        }
    }
}

/// The port that a poll reply describes: the port address is read high byte
/// first, the names up to their first zero byte.
pub open spec fn port_of_reply(v: PollReplyView) -> ArtnetParamsView {
    ArtnetParamsView {
        addr: v.address,
        port_address: (v.port_address[0] as int * 256 + v.port_address[1] as int) as u16,
        short_name: name_text(until_nul(v.short_name)),
        long_name: name_text(until_nul(v.long_name)),
    }
}

/// A port of an Art-Net node. Each frame is written into a buffer that the
/// caller then sends to the node.
#[derive(Debug, Clone)]
pub struct ArtnetDmxPort {
    params: ArtnetDmxPortParams,
    send_buf: Vec<u8>,
}

impl ArtnetDmxPort {
    pub closed spec fn spec_params(&self) -> ArtnetParamsView {
        self.params@
    }

    pub closed spec fn spec_send_buf(&self) -> Seq<u8> {
        self.send_buf@
    }

    /// A port for the node output `params`, with nothing to send yet.
    pub fn new(params: ArtnetDmxPortParams) -> (r: Self)
        ensures
            r.spec_params() == params@,
            r.spec_send_buf() == Seq::<u8>::empty(),
    {
        ArtnetDmxPort { params, send_buf: Vec::new() }
    }

    /// The port that a poll reply describes.
    pub fn from_poll(reply: &PollReplyFields) -> (r: Self)
        ensures
            r.spec_params() == port_of_reply(reply@),
            r.spec_send_buf() == Seq::<u8>::empty(),
    {
        let port_address: u16 = reply.port_address[0] as u16 * 256 + reply.port_address[1] as u16;
        let params = ArtnetDmxPortParams {
            addr: reply.address,
            port_address,
            short_name: null_terminated_string_lossy(reply.short_name.as_slice()),
            long_name: null_terminated_string_lossy(reply.long_name.as_slice()),
        };
        ArtnetDmxPort { params, send_buf: Vec::new() }
    }

    /// The port that a received datagram describes, if it is a poll reply.
    pub fn from_datagram(buf: &[u8]) -> (r: Option<Self>)
        ensures
            parsed_poll_reply(buf@) is None ==> r is None,
            parsed_poll_reply(buf@) is Some ==> r is Some && r.unwrap().spec_params() == port_of_reply(
                parsed_poll_reply(buf@).unwrap(),
            ) && r.unwrap().spec_send_buf() == Seq::<u8>::empty(),
    {
        match parse_poll_reply(buf) {
            Some(reply) => Some(ArtnetDmxPort::from_poll(&reply)),
            None => None,
        }
    }

    /// The node output that the port writes to, letting go of the port.
    pub fn into_params(self) -> (r: ArtnetDmxPortParams)
        ensures
            r@ == self.spec_params(),
    {
        self.params
    }

    pub fn params(&self) -> (r: &ArtnetDmxPortParams)
        ensures
            r@ == self.spec_params(),
    {
        &self.params
    }

    /// Put the output datagram for `frame` in the send buffer. Empty frames
    /// and frames over 512 bytes are refused and leave the buffer empty.
    pub fn write(&mut self, frame: &[u8]) -> (r: Result<(), FrameError>)
        ensures
            final(self).spec_params() == old(self).spec_params(),
            frame@.len() == 0 ==> r == Err::<(), FrameError>(FrameError::Empty),
            frame@.len() > MAX_UNIVERSE_SIZE ==> r == Err::<(), FrameError>(FrameError::TooLong(frame@.len() as usize)),
            r is Ok <==> 1 <= frame@.len() <= MAX_UNIVERSE_SIZE,
            r is Ok ==> final(self).spec_send_buf() == output_datagram(old(self).spec_params().port_address, frame@),
            r is Err ==> final(self).spec_send_buf() == Seq::<u8>::empty(),
    {
        self.send_buf.clear();
        write(&mut self.send_buf, self.params.port_address, frame)
    }

    /// The datagram that the last successful `write` prepared.
    pub fn send_buffer(&self) -> (r: &[u8])
        ensures
            r@ == self.spec_send_buf(),
    {
        self.send_buf.as_slice()
    }
}

/// `name` in a field of `width` bytes: one byte per character, zeros after.
pub open spec fn name_field(name: Seq<char>, width: nat) -> Seq<u8> {
    Seq::new(width, |i: int| if i < name.len() { (name[i] as u32) as u8 } else { 0u8 })
}

/// A name that fits a field of `max + 1` bytes with its terminating zero:
/// at most `max` ASCII characters, none of them NUL.
pub open spec fn is_node_name(name: Seq<char>, max: nat) -> bool {
    name.len() <= max && forall|i: int| 0 <= i < name.len() ==> 0 < (#[trigger] name[i] as u32) < 128
}

/// The poll reply datagram that a node sends for `p`: header, opcode 0x2100,
/// address, UDP port 6454, version, port address high byte first, zeros, the
/// two name fields and zeros up to 239 bytes.
pub open spec fn poll_reply_datagram(p: ArtnetParamsView) -> Seq<u8> {
    artnet_header() + seq![0x00u8, 0x21u8] + p.addr + le_bytes(PORT) + seq![0u8, 14u8] + be_bytes(
        p.port_address,
    ) + Seq::new(6, |i: int| 0u8) + name_field(p.short_name, SHORT_NAME_LEN as nat) + name_field(
        p.long_name,
        LONG_NAME_LEN as nat,
    ) + Seq::new(131, |i: int| 0u8)
}

proof fn lemma_ascii_char(c: char)
    requires
        0 < (c as u32) < 128,
    ensures
        char_of((c as u32) as u8) == c,
{
}

proof fn lemma_name_field_round_trip(name: Seq<char>, width: nat)
    requires
        is_node_name(name, (width - 1) as nat),
        width >= 1,
    ensures
        name_text(until_nul(name_field(name, width))) == name,
{
    let f = name_field(name, width);
    let n = name.len() as int;
    assert forall|j: int| 0 <= j < n implies f[j] != 0 by {
        assert(0 < (name[j] as u32) < 128);
    }
    lemma_until_nul_at(f, n);
    let b = f.subrange(0, n);
    assert forall|i: int| 0 <= i < b.len() implies b[i] < 128 by {
        assert(0 < (name[i] as u32) < 128);
    }
    assert forall|i: int| 0 <= i < n implies #[trigger] ascii_chars(b)[i] == name[i] by {
        let c = name[i];
        assert(0 < (c as u32) < 128);
        assert(b[i] == (c as u32) as u8);
        lemma_ascii_char(c);
    }
    assert(ascii_chars(b) =~= name);
}

/// Writing a node's address, port address and names into a poll reply and
/// reading the reply back gives the same port, for names of ASCII characters
/// other than NUL that fit their fields.
pub proof fn lemma_poll_reply_round_trip(p: ArtnetParamsView)
    requires
        p.addr.len() == 4,
        is_node_name(p.short_name, (SHORT_NAME_LEN - 1) as nat),
        is_node_name(p.long_name, (LONG_NAME_LEN - 1) as nat),
    ensures
        parsed_poll_reply(poll_reply_datagram(p)) is Some,
        port_of_reply(parsed_poll_reply(poll_reply_datagram(p)).unwrap()) == p,
{
    let d = poll_reply_datagram(p);
    assert(d.len() == POLL_REPLY_LEN);
    assert(d.subrange(0, 8) =~= artnet_header());
    assert(d.subrange(10, 14) =~= p.addr);
    let pa = d.subrange(18, 20);
    assert(pa =~= be_bytes(p.port_address));
    assert(d.subrange(26, 44) =~= name_field(p.short_name, SHORT_NAME_LEN as nat));
    assert(d.subrange(44, 108) =~= name_field(p.long_name, LONG_NAME_LEN as nat));
    lemma_name_field_round_trip(p.short_name, SHORT_NAME_LEN as nat);
    lemma_name_field_round_trip(p.long_name, LONG_NAME_LEN as nat);
    let v = parsed_poll_reply(d).unwrap();
    assert((pa[0] as int * 256 + pa[1] as int) as u16 == p.port_address);
    assert(port_of_reply(v) == p);
}

/// How long the next receive of discovery may wait, in nanoseconds, when
/// `elapsed` of the budget `wait` has gone: what is left, or nothing once the
/// budget is spent.
pub fn receive_timeout(wait: u64, elapsed: u64) -> (r: Option<u64>)
    ensures
        elapsed < wait ==> r == Some((wait - elapsed) as u64),
        elapsed >= wait ==> r is None,
{
    if elapsed < wait {
        Some(wait - elapsed)
    } else {
        None
    }
}

} // verus!
