//! The UDP query protocol: packet building and parsing for the two-step
//! challenge / status exchange, and the classification of datagrams that
//! arrive out of cycle.
//!
//! The socket itself lives outside the library; every function here maps
//! plain bytes to plain values.

use vstd::prelude::*;
use vstd::slice::slice_subrange;

use crate::text::{
    all_digit_bytes, be32, be32_value, dec_digits, dec_value, u32_be_bytes, u32_from_be,
    u64_string,
};

verus! {

/// The fields of a "basic stat" reply, in wire order.
#[derive(Debug, Clone, Copy, PartialEq, Eq, Structural)]
pub enum FieldName {
    Motd,
    GameType,
    WorldMap,
    CurrentOnline,
}

impl FieldName {
    pub open spec fn spec_str(self) -> Seq<char> {
        match self {
            FieldName::Motd => "MOTD"@,
            FieldName::GameType => "Game type"@,
            FieldName::WorldMap => "Map"@,
            FieldName::CurrentOnline => "Current online"@,
        }
    }

    /// The field's name as it appears in error messages.
    pub fn as_str(&self) -> (r: &'static str)
        ensures
            r@ == self.spec_str(),
    {
        match self {
            FieldName::Motd => "MOTD",
            FieldName::GameType => "Game type",
            FieldName::WorldMap => "Map",
            FieldName::CurrentOnline => "Current online",
        }
    }
}

/// Everything that can go wrong inside one poll cycle.
#[derive(Debug, Clone, PartialEq, Eq)]
pub enum InnerError {
    /// An I/O error of the socket, by its text.
    IO(String),
    /// The datagram had fewer than the 5 header bytes; carries its length.
    TooShort(usize),
    /// Wrong leading type byte: expected, received.
    IncorrectType(u8, u8),
    /// A datagram of a type this protocol does not know.
    UnknownType(u8),
    /// The challenge reply carried no token text.
    NoChallenge,
    /// A numeric field did not parse as a decimal 32-bit value.
    Parsing,
    /// A "basic stat" reply ended before this field's terminator.
    NoField(FieldName),
    /// No datagram arrived within the read timeout.
    ReadTimeout,
}

impl InnerError {
    pub open spec fn spec_message(self) -> Seq<char> {
        match self {
            InnerError::IO(m) => "Generic IO error: "@ + m@,
            InnerError::TooShort(n) => "Packet is too short: "@ + dec_digits(n as nat),
            InnerError::IncorrectType(e, g) => "Incorrect response type. Expected: <"@ + dec_digits(
                e as nat,
            ) + ">, received: <"@ + dec_digits(g as nat) + ">"@,
            InnerError::UnknownType(t) => "Unknown response type: <"@ + dec_digits(t as nat)
                + ">"@,
            InnerError::NoChallenge => "Response doesn't have `challenge` field."@,
            InnerError::Parsing => "Couldn't parse challenge"@,
            InnerError::NoField(f) => "Packet doesn't have <"@ + f.spec_str() + "> field"@,
            InnerError::ReadTimeout => "Read timeout"@,
        }
    }

    pub fn message(&self) -> (r: String)
        ensures
            r@ == self.spec_message(),
    {
        match self {
            InnerError::IO(m) => String::from_str("Generic IO error: ").concat(m.as_str()),
            InnerError::TooShort(n) => {
                let num = u64_string(*n as u64);
                String::from_str("Packet is too short: ").concat(num.as_str())
            },
            InnerError::IncorrectType(e, g) => {
                let en = u64_string(*e as u64);
                let gn = u64_string(*g as u64);
                String::from_str("Incorrect response type. Expected: <").concat(en.as_str()).concat(
                    ">, received: <",
                ).concat(gn.as_str()).concat(">")
            },
            InnerError::UnknownType(t) => {
                let tn = u64_string(*t as u64);
                String::from_str("Unknown response type: <").concat(tn.as_str()).concat(">")
            },
            InnerError::NoChallenge => String::from_str("Response doesn't have `challenge` field."),
            InnerError::Parsing => String::from_str("Couldn't parse challenge"),
            InnerError::NoField(f) => String::from_str("Packet doesn't have <").concat(
                f.as_str(),
            ).concat("> field"),
            InnerError::ReadTimeout => String::from_str("Read timeout"),
        }
    }
}

/// One challenge obtained from the child, consumed by the next query.
#[derive(Debug, Clone, Copy, PartialEq, Eq, Structural)]
pub struct Challenge {
    pub challenge: u32,
    pub session: u32,
}

/// Address of the child's UDP query service.
pub const QUERY_ADDRESS: &'static str = "127.0.0.1:25566";

/// The session identifier this client always sends.
pub const SESSION_ID: u32 = 1;

/// The wire bytes of a challenge request.
pub open spec fn spec_challenge_request() -> Seq<u8> {
    seq![0xfeu8, 0xfdu8, 0x09u8] + be32(SESSION_ID)
}

/// Builds the challenge request: magic, type 0x09, session id.
pub fn challenge_request() -> (r: Vec<u8>)
    ensures
        r@ == spec_challenge_request(),
{
    let mut packet: Vec<u8> = Vec::new();
    packet.push(0xfe);
    packet.push(0xfd);
    packet.push(0x09);
    let session = u32_be_bytes(SESSION_ID);
    packet.push(session[0]);
    packet.push(session[1]);
    packet.push(session[2]);
    packet.push(session[3]);
    proof {
        assert(packet@ =~= spec_challenge_request());
    }
    packet
}

/// The wire bytes of a query request carrying `c`.
pub open spec fn spec_query_request(c: Challenge) -> Seq<u8> {
    seq![0xfeu8, 0xfdu8, 0x00u8] + be32(c.session) + be32(c.challenge)
}

/// Builds the query request: magic, type 0x00, session id, challenge token.
pub fn query_request(c: &Challenge) -> (r: Vec<u8>)
    ensures
        r@ == spec_query_request(*c),
{
    let mut packet: Vec<u8> = Vec::new();
    packet.push(0xfe);
    packet.push(0xfd);
    packet.push(0x00);
    let session = u32_be_bytes(c.session);
    packet.push(session[0]);
    packet.push(session[1]);
    packet.push(session[2]);
    packet.push(session[3]);
    let token = u32_be_bytes(c.challenge);
    packet.push(token[0]);
    packet.push(token[1]);
    packet.push(token[2]);
    packet.push(token[3]);
    proof {
        assert(packet@ =~= spec_query_request(*c));
    }
    packet
}

/// The datagram's leading type byte; an empty datagram reads as type 0,
/// as a zero-filled receive buffer would.
pub open spec fn packet_type(d: Seq<u8>) -> u8 {
    if d.len() > 0 {
        d[0]
    } else {
        0
    }
}

/// Index of the first NUL byte at or after `i`, or the length when there is
/// none.
pub open spec fn first_nul(d: Seq<u8>, i: int) -> int
    decreases d.len() - i when 0 <= i <= d.len()
{
    if i >= d.len() {
        d.len() as int
    } else if d[i] == 0 {
        i
    } else {
        first_nul(d, i + 1)
    }
}

proof fn lemma_first_nul_skip(d: Seq<u8>, start: int, i: int)
    requires
        0 <= start <= i <= d.len(),
        forall|j: int| start <= j < i ==> d[j] != 0,
    ensures
        first_nul(d, start) == first_nul(d, i),
    decreases i - start,
{
    if start < i {
        lemma_first_nul_skip(d, start + 1, i);
    }
}

/// First NUL position is never past the end and never before `start`.
proof fn lemma_first_nul_bounds(d: Seq<u8>, i: int)
    requires
        0 <= i <= d.len(),
    ensures
        i <= first_nul(d, i) <= d.len(),
        forall|j: int| i <= j < first_nul(d, i) ==> d[j] != 0,
        first_nul(d, i) < d.len() ==> d[first_nul(d, i)] == 0,
    decreases d.len() - i,
{
    if i < d.len() && d[i] != 0 {
        lemma_first_nul_bounds(d, i + 1);
    }
}

/// Finds the first NUL at or after `start`, or `data.len()`.
fn find_nul(data: &[u8], start: usize) -> (r: usize)
    requires
        start <= data@.len(),
    ensures
        r == first_nul(data@, start as int),
{
    let n = data.len();
    let mut i = start;
    while i < n
        invariant
            start <= i <= n,
            n == data@.len(),
            forall|j: int| start <= j < i ==> data@[j] != 0,
        decreases n - i,
    {
        if data[i] == 0 {
            proof {
                lemma_first_nul_skip(data@, start as int, i as int);
            }
            return i;
        }
        i += 1;
    }
    proof {
        lemma_first_nul_skip(data@, start as int, i as int);
    }
    i
}

/// What parsing a datagram as a challenge reply yields: type byte 0x09,
/// then the session echo, then the token as decimal text up to the first
/// NUL (or the end of the datagram).
pub open spec fn spec_read_challenge_packet(d: Seq<u8>) -> Result<Challenge, InnerError> {
    let t = packet_type(d);
    if t != 9 {
        Err(InnerError::IncorrectType(9, t))
    } else if d.len() < 5 {
        Err(InnerError::TooShort(d.len() as usize))
    } else {
        let tok = d.subrange(5, first_nul(d, 5));
        if tok.len() == 0 {
            Err(InnerError::NoChallenge)
        } else if all_digit_bytes(tok) && dec_value(tok) <= u32::MAX {
            Ok(
                Challenge {
                    challenge: dec_value(tok) as u32,
                    session: be32_value(d[1], d[2], d[3], d[4]),
                },
            )
        } else {
            Err(InnerError::Parsing)
        }
    }
}

/// Parses a datagram as a challenge reply.
pub fn read_challenge_packet(data: &[u8]) -> (r: Result<Challenge, InnerError>)
    ensures
        r == spec_read_challenge_packet(data@),
{
    let n = data.len();
    let packet_type: u8 = if n > 0 {
        data[0]
    } else {
        0
    };
    if packet_type != 9 {
        return Err(InnerError::IncorrectType(9, packet_type));
    }
    if n < 5 {
        return Err(InnerError::TooShort(n));
    }
    proof {
        lemma_first_nul_bounds(data@, 5);
    }
    let end = find_nul(data, 5);
    let token = slice_subrange(data, 5, end);
    if token.len() == 0 {
        return Err(InnerError::NoChallenge);
    }
    match crate::text::parse_u32_dec(token) {
        Some(v) => {
            let session = u32_from_be(data[1], data[2], data[3], data[4]);
            Ok(Challenge { challenge: v, session })
        },
        None => Err(InnerError::Parsing),
    }
}

/// Terminator position of field `k + 1` (counting from `start`), or the
/// datagram length when that field is never terminated.
pub open spec fn nth_nul(d: Seq<u8>, start: int, k: nat) -> int
    decreases k,
{
    let p = first_nul(d, start);
    if k == 0 {
        p
    } else if p >= d.len() {
        d.len() as int
    } else {
        nth_nul(d, p + 1, (k - 1) as nat)
    }
}

/// What parsing a datagram as a "basic stat" reply yields: type byte 0x00,
/// then four NUL-terminated fields, of which the fourth (the online count)
/// is read as decimal text. A field without its terminator is missing.
pub open spec fn spec_read_online_packet(d: Seq<u8>) -> Result<u32, InnerError> {
    let t = packet_type(d);
    if t != 0 {
        Err(InnerError::IncorrectType(0, t))
    } else if d.len() < 5 {
        Err(InnerError::TooShort(d.len() as usize))
    } else {
        let n0 = nth_nul(d, 5, 0);
        let n1 = nth_nul(d, 5, 1);
        let n2 = nth_nul(d, 5, 2);
        let n3 = nth_nul(d, 5, 3);
        if n0 >= d.len() {
            Err(InnerError::NoField(FieldName::Motd))
        } else if n1 >= d.len() {
            Err(InnerError::NoField(FieldName::GameType))
        } else if n2 >= d.len() {
            Err(InnerError::NoField(FieldName::WorldMap))
        } else if n3 >= d.len() {
            Err(InnerError::NoField(FieldName::CurrentOnline))
        } else {
            let tok = d.subrange(n2 + 1, n3);
            if all_digit_bytes(tok) && tok.len() > 0 && dec_value(tok) <= u32::MAX {
                Ok(dec_value(tok) as u32)
            } else {
                Err(InnerError::Parsing)
            }
        }
    }
}

/// Parses a datagram as a "basic stat" reply and returns the online count.
pub fn read_online_packet(data: &[u8]) -> (r: Result<u32, InnerError>)
    ensures
        r == spec_read_online_packet(data@),
{
    proof {
        reveal_with_fuel(nth_nul, 5);
    }
    let n = data.len();
    let packet_type: u8 = if n > 0 {
        data[0]
    } else {
        0
    };
    if packet_type != 0 {
        return Err(InnerError::IncorrectType(0, packet_type));
    }
    if n < 5 {
        return Err(InnerError::TooShort(n));
    }
    proof {
        lemma_first_nul_bounds(data@, 5);
    }
    let n0 = find_nul(data, 5);
    if n0 >= n {
        return Err(InnerError::NoField(FieldName::Motd));
    }
    proof {
        lemma_first_nul_bounds(data@, n0 as int + 1);
    }
    let n1 = find_nul(data, n0 + 1);
    if n1 >= n {
        return Err(InnerError::NoField(FieldName::GameType));
    }
    proof {
        lemma_first_nul_bounds(data@, n1 as int + 1);
    }
    let n2 = find_nul(data, n1 + 1);
    if n2 >= n {
        return Err(InnerError::NoField(FieldName::WorldMap));
    }
    proof {
        lemma_first_nul_bounds(data@, n2 as int + 1);
    }
    let n3 = find_nul(data, n2 + 1);
    if n3 >= n {
        return Err(InnerError::NoField(FieldName::CurrentOnline));
    }
    let token = slice_subrange(data, n2 + 1, n3);
    match crate::text::parse_u32_dec(token) {
        Some(v) => Ok(v),
        None => Err(InnerError::Parsing),
    }
}

/// What a datagram caught during the re-sync phase means for the cycle.
#[derive(Debug, Clone, Copy, PartialEq, Eq, Structural)]
pub enum StaleOutcome {
    /// A late status reply: its online count answers this cycle directly.
    Online(u32),
    /// A late challenge reply: its token serves as this cycle's challenge.
    UseChallenge(Challenge),
}

/// Classification of a datagram received before anything was sent this
/// cycle.
pub open spec fn spec_classify_stale(d: Seq<u8>) -> Result<StaleOutcome, InnerError> {
    let t = packet_type(d);
    if t == 0 {
        match spec_read_online_packet(d) {
            Ok(v) => Ok(StaleOutcome::Online(v)),
            Err(e) => Err(e),
        }
    } else if t == 9 {
        match spec_read_challenge_packet(d) {
            Ok(c) => Ok(StaleOutcome::UseChallenge(c)),
            Err(e) => Err(e),
        }
    } else {
        Err(InnerError::UnknownType(t))
    }
}

/// Classifies a datagram that arrived before this cycle sent anything:
/// a late status reply is consumed as this cycle's answer, a late
/// challenge reply is used as this cycle's challenge, anything else is an
/// error.
pub fn classify_stale_datagram(data: &[u8]) -> (r: Result<StaleOutcome, InnerError>)
    ensures
        r == spec_classify_stale(data@),
{
    let n = data.len();
    let packet_type: u8 = if n > 0 {
        data[0]
    } else {
        0
    };
    if packet_type == 0 {
        match read_online_packet(data) {
            Ok(v) => Ok(StaleOutcome::Online(v)),
            Err(e) => Err(e),
        }
    } else if packet_type == 9 {
        match read_challenge_packet(data) {
            Ok(c) => Ok(StaleOutcome::UseChallenge(c)),
            Err(e) => Err(e),
        }
    } else {
        Err(InnerError::UnknownType(packet_type))
    }
}

} // verus!
