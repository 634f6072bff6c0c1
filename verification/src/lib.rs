//! Peer-discovery and message-exchange engine for a connectionless
//! broadcast radio link, together with its cooperative scheduling.
//!
//! The engine is pure logic: it decides, for each scheduling tick, how the
//! peer table changes and which frames must go out. The surrounding program
//! owns the radio hardware, performs the sends and receives, and feeds the
//! resulting events back in.

use vstd::prelude::*;

pub mod radio;
pub mod registry;
pub mod broadcast;
pub mod led;
pub mod lock;
pub mod scheduler;

verus! {

/// A 6-byte radio hardware address, the key under which peers are
/// discovered, registered and addressed.
#[derive(Clone, Copy, Debug, PartialEq, Eq)]
pub struct MacAddress(pub [u8; 6]);

/// The ASCII colon that separates the bytes of a formatted address.
pub const COLON: u8 = 0x3a;

/// The ASCII character for one hex digit value, lowercase.
pub open spec fn spec_hex_char(n: u8) -> u8
    recommends
        n < 16,
{
    if n < 10 {
        (0x30 + n) as u8
    } else {
        (0x57 + n) as u8
    }
}

/// The high hex digit of a byte, as an ASCII character.
pub open spec fn spec_hex_hi(b: u8) -> u8 {
    spec_hex_char(b / 16)
}

/// The low hex digit of a byte, as an ASCII character.
pub open spec fn spec_hex_lo(b: u8) -> u8 {
    spec_hex_char(b % 16)
}

/// The canonical textual form of an address: six bytes as lowercase
/// two-digit hex, separated by colons, 17 ASCII characters in all.
pub open spec fn spec_format_mac(a: [u8; 6]) -> Seq<u8> {
    seq![
        spec_hex_hi(a[0]), spec_hex_lo(a[0]), COLON,
        spec_hex_hi(a[1]), spec_hex_lo(a[1]), COLON,
        spec_hex_hi(a[2]), spec_hex_lo(a[2]), COLON,
        spec_hex_hi(a[3]), spec_hex_lo(a[3]), COLON,
        spec_hex_hi(a[4]), spec_hex_lo(a[4]), COLON,
        spec_hex_hi(a[5]), spec_hex_lo(a[5]),
    ]
}

/// The value of one ASCII character read as a lowercase hex digit.
pub open spec fn spec_hex_val(c: u8) -> Option<u8> {
    if 0x30 <= c && c <= 0x39 {
        Some((c - 0x30) as u8)
    } else if 0x61 <= c && c <= 0x66 {
        Some((c - 0x57) as u8)
    } else {
        None
    }
}

/// Whether a two-character hex pair starts at position `i` of `s`.
pub open spec fn spec_pair_ok(s: Seq<u8>, i: int) -> bool {
    spec_hex_val(s[i]) is Some && spec_hex_val(s[i + 1]) is Some
}

/// The byte value of the hex pair at position `i` of `s`.
pub open spec fn spec_pair_val(s: Seq<u8>, i: int) -> u8
    recommends
        spec_pair_ok(s, i),
{
    (spec_hex_val(s[i]).unwrap() * 16 + spec_hex_val(s[i + 1]).unwrap()) as u8
}

/// Parsing of the canonical textual form back into the six address bytes.
/// Accepts exactly the strings that `spec_format_mac` produces: 17
/// characters, lowercase hex pairs, colons between them.
pub open spec fn spec_parse_mac(s: Seq<u8>) -> Option<Seq<u8>> {
    if s.len() == 17 && s[2] == COLON && s[5] == COLON && s[8] == COLON && s[11] == COLON
        && s[14] == COLON && spec_pair_ok(s, 0) && spec_pair_ok(s, 3) && spec_pair_ok(s, 6)
        && spec_pair_ok(s, 9) && spec_pair_ok(s, 12) && spec_pair_ok(s, 15) {
        Some(
            seq![
                spec_pair_val(s, 0),
                spec_pair_val(s, 3),
                spec_pair_val(s, 6),
                spec_pair_val(s, 9),
                spec_pair_val(s, 12),
                spec_pair_val(s, 15),
            ],
        )
    } else {
        None
    }
}

impl MacAddress {
    /// True when the address is the reserved all-ones broadcast address.
    pub open spec fn spec_is_broadcast(self) -> bool {
        forall|i: int| 0 <= i < 6 ==> self.0[i] == 0xffu8
    }

    pub fn is_broadcast(&self) -> (r: bool)
        ensures
            r == self.spec_is_broadcast(),
    {
        let r = self.0[0] == 0xff && self.0[1] == 0xff && self.0[2] == 0xff && self.0[3] == 0xff
            && self.0[4] == 0xff && self.0[5] == 0xff;
        r
    }

    /// Byte-for-byte equality of two addresses.
    pub fn same_as(&self, other: &MacAddress) -> (r: bool)
        ensures
            r == (*self == *other),
    {
        let r = self.0[0] == other.0[0] && self.0[1] == other.0[1] && self.0[2] == other.0[2]
            && self.0[3] == other.0[3] && self.0[4] == other.0[4] && self.0[5] == other.0[5];
        if r {
            proof {
                assert(self.0 =~= other.0);
            }
        } else {
            proof {
                assert(!(self.0 =~= other.0));
            }
        }
        r
    }
}

impl vstd::std_specs::convert::FromSpecImpl<[u8; 6]> for MacAddress {
    open spec fn obeys_from_spec() -> bool {
        true
    }

    open spec fn from_spec(bytes: [u8; 6]) -> MacAddress {
        MacAddress(bytes)
    }
}

impl From<[u8; 6]> for MacAddress {
    fn from(bytes: [u8; 6]) -> (r: MacAddress) {
        MacAddress(bytes)
    }
}

/// The ASCII character for one hex digit value, lowercase.
fn hex_char(n: u8) -> (r: u8)
    requires
        n < 16,
    ensures
        r == spec_hex_char(n),
{
    if n < 10 {
        0x30 + n
    } else {
        0x57 + n
    }
}

/// Appends the two lowercase hex digits of `b` to `out`.
fn push_hex_byte(out: &mut Vec<u8>, b: u8)
    ensures
        final(out)@ == old(out)@ + seq![spec_hex_hi(b), spec_hex_lo(b)],
{
    out.push(hex_char(b / 16));
    out.push(hex_char(b % 16));
    assert(final(out)@ =~= old(out)@ + seq![spec_hex_hi(b), spec_hex_lo(b)]);
}

/// Formats an address in its canonical colon-separated lowercase-hex form,
/// as ASCII bytes.
pub fn format_mac(addr: [u8; 6]) -> (r: Vec<u8>)
    ensures
        r@ == spec_format_mac(addr),
        r@.len() == 17,
{
    let mut out: Vec<u8> = Vec::new();
    push_hex_byte(&mut out, addr[0]);
    out.push(COLON);
    push_hex_byte(&mut out, addr[1]);
    out.push(COLON);
    push_hex_byte(&mut out, addr[2]);
    out.push(COLON);
    push_hex_byte(&mut out, addr[3]);
    out.push(COLON);
    push_hex_byte(&mut out, addr[4]);
    out.push(COLON);
    push_hex_byte(&mut out, addr[5]);
    assert(out@ =~= spec_format_mac(addr));
    out
}

#[verifier::external_type_specification]
#[verifier::external_body]
/// The fixed-capacity string type of the heapless crate, in which the
/// embedded caller keeps the formatted address without allocating.
pub struct ExHeaplessString<const N: usize>(heapless::String<N>);

/// The bytes a fixed-capacity string of 18 holds.
pub uninterp spec fn hstring_bytes(s: heapless::String<18>) -> Seq<u8>;

/// Relies on core::str::from_utf8 and heapless::String::try_from: the
/// returned string holds exactly the given bytes, which must be ASCII and
/// fit its capacity.
#[verifier::external_body]
fn hstring_from_ascii(bytes: &Vec<u8>) -> (r: heapless::String<18>)
    requires
        bytes@.len() <= 18,
        forall|i: int| 0 <= i < bytes@.len() ==> bytes@[i] < 128,
    ensures
        hstring_bytes(r) == bytes@,
{
    let s = core::str::from_utf8(bytes.as_slice()).unwrap();
    heapless::String::try_from(s).unwrap()
}

/// Formats an address in its canonical colon-separated lowercase-hex form,
/// in the fixed-capacity string the embedded caller passes around.
pub fn mac(addr: [u8; 6]) -> (r: heapless::String<18>)
    ensures
        hstring_bytes(r) == spec_format_mac(addr),
{
    let bytes = format_mac(addr);
    proof {
        lemma_mac_format_lowercase(addr);
    }
    hstring_from_ascii(&bytes)
}

/// The value of one ASCII character read as a lowercase hex digit.
fn hex_val(c: u8) -> (r: Option<u8>)
    ensures
        r == spec_hex_val(c),
{
    if 0x30 <= c && c <= 0x39 {
        Some(c - 0x30)
    } else if 0x61 <= c && c <= 0x66 {
        Some(c - 0x57)
    } else {
        None
    }
}

/// Reads the hex pair at position `i` of `s`, if both characters are
/// lowercase hex digits.
fn read_pair(s: &[u8], i: usize) -> (r: Option<u8>)
    requires
        i + 1 < s@.len(),
    ensures
        spec_pair_ok(s@, i as int) ==> r == Some(spec_pair_val(s@, i as int)),
        !spec_pair_ok(s@, i as int) ==> r is None,
{
    let hi = hex_val(s[i]);
    let lo = hex_val(s[i + 1]);
    match (hi, lo) {
        (Some(h), Some(l)) => Some(h * 16 + l),
        _ => None,
    }
}

/// Parses the canonical colon-separated lowercase-hex form of an address.
/// Returns the address exactly when the input is such a rendering.
pub fn parse_mac(s: &[u8]) -> (r: Option<MacAddress>)
    ensures
        r is Some <==> spec_parse_mac(s@) is Some,
        r is Some ==> r.unwrap().0@ == spec_parse_mac(s@).unwrap(),
{
    if s.len() != 17 {
        return None;
    }
    if !(s[2] == COLON && s[5] == COLON && s[8] == COLON && s[11] == COLON && s[14] == COLON) {
        return None;
    }
    let p0 = read_pair(s, 0);
    let p1 = read_pair(s, 3);
    let p2 = read_pair(s, 6);
    let p3 = read_pair(s, 9);
    let p4 = read_pair(s, 12);
    let p5 = read_pair(s, 15);
    match (p0, p1, p2, p3, p4, p5) {
        (Some(b0), Some(b1), Some(b2), Some(b3), Some(b4), Some(b5)) => {
            let out = MacAddress([b0, b1, b2, b3, b4, b5]);
            assert(out.0@ =~= spec_parse_mac(s@).unwrap());
            Some(out)
        },
        _ => None,
    }
}

/// Law: one hex digit survives the round trip through its ASCII character.
proof fn lemma_hex_char_round_trip(n: u8)
    requires
        n < 16,
    ensures
        spec_hex_val(spec_hex_char(n)) == Some(n),
{
}

/// Law: formatting any address and parsing the result back recovers the
/// original six bytes; formatting is deterministic and always parseable.
pub proof fn lemma_mac_round_trip(a: [u8; 6])
    ensures
        spec_parse_mac(spec_format_mac(a)) == Some(a@),
{
    let s = spec_format_mac(a);
    assert forall|i: int| 0 <= i < 6 implies spec_pair_ok(s, 3 * i) && spec_pair_val(s, 3 * i)
        == a[i] by {
        lemma_hex_char_round_trip(a[i] / 16);
        lemma_hex_char_round_trip(a[i] % 16);
        assert(s[3 * i] == spec_hex_hi(a[i]));
        assert(s[3 * i + 1] == spec_hex_lo(a[i]));
        assert(a[i] / 16 * 16 + a[i] % 16 == a[i]);
    }
    assert(spec_pair_ok(s, 0) && spec_pair_ok(s, 3) && spec_pair_ok(s, 6) && spec_pair_ok(s, 9)
        && spec_pair_ok(s, 12) && spec_pair_ok(s, 15));
    assert(spec_parse_mac(s) is Some);
    assert(spec_parse_mac(s).unwrap() =~= a@);
}

/// Law: the canonical rendering is lowercase: every character is a colon,
/// a digit, or a lowercase hex letter.
pub proof fn lemma_mac_format_lowercase(a: [u8; 6])
    ensures
        forall|i: int|
            0 <= i < spec_format_mac(a).len() ==> (spec_format_mac(a)[i] == COLON || (0x30
                <= spec_format_mac(a)[i] && spec_format_mac(a)[i] <= 0x39) || (0x61
                <= spec_format_mac(a)[i] && spec_format_mac(a)[i] <= 0x66)),
{
}

} // verus!
