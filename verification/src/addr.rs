//! The IPv4 address value produced for every decoded DNS-server entry, and
//! the conversion between that value and the 32-bit on-the-wire form carried
//! by a socket-address record.
//!
//! A socket-address record stores the address as a 32-bit field in network
//! byte order. Read natively on a little-endian host, the first octet of the
//! dotted quad lands in the least significant byte of that field; decoding
//! therefore peels the octets off from the low byte upward, and encoding puts
//! them back.

use vstd::prelude::*;

verus! {

/// A dotted-quad IPv4 address: `a.b.c.d`.
#[derive(Clone, Copy, Debug, PartialEq, Eq, Structural)]
pub struct Ipv4Address {
    pub a: u8,
    pub b: u8,
    pub c: u8,
    pub d: u8,
}

/// The address denoted by a 32-bit socket-address field `raw`, as read
/// natively on a little-endian host: the first octet is the least significant
/// byte of `raw`, the last octet the most significant.
pub open spec fn ipv4_of_net(raw: u32) -> Ipv4Address {
    Ipv4Address {
        a: (raw & 0xff) as u8,
        b: ((raw >> 8) & 0xff) as u8,
        c: ((raw >> 16) & 0xff) as u8,
        d: ((raw >> 24) & 0xff) as u8,
    }
}

/// The 32-bit socket-address field that stores `addr` in network byte order,
/// as read natively on a little-endian host.
pub open spec fn net_of_ipv4(addr: Ipv4Address) -> u32 {
    (addr.a as u32) | ((addr.b as u32) << 8) | ((addr.c as u32) << 16) | ((addr.d as u32) << 24)
}

/// Decodes the 32-bit network-byte-order socket-address field into the
/// dotted-quad address it stores.
pub fn decode_ipv4(raw: u32) -> (addr: Ipv4Address)
    ensures
        addr == ipv4_of_net(raw),
{
    proof {
        lemma_net_bytes_fit(raw);
    }
    Ipv4Address {
        a: (raw & 0xff) as u8,
        b: ((raw >> 8) & 0xff) as u8,
        c: ((raw >> 16) & 0xff) as u8,
        d: ((raw >> 24) & 0xff) as u8,
    }
}

/// Encodes a dotted-quad address back into the 32-bit network-byte-order
/// socket-address field that stores it.
pub fn encode_ipv4(addr: Ipv4Address) -> (raw: u32)
    ensures
        raw == net_of_ipv4(addr),
{
    (addr.a as u32) | ((addr.b as u32) << 8) | ((addr.c as u32) << 16) | ((addr.d as u32) << 24)
}

/// Each byte extracted from a 32-bit field fits in a `u8`.
proof fn lemma_net_bytes_fit(raw: u32)
    by (bit_vector)
    ensures
        raw & 0xff <= 0xff,
        (raw >> 8) & 0xff <= 0xff,
        (raw >> 16) & 0xff <= 0xff,
        (raw >> 24) & 0xff <= 0xff,
{
}

/// Decoding is reversible: encoding the decoded dotted-quad value back to its
/// 32-bit network-order form reproduces the original field.
pub proof fn lemma_ipv4_round_trip_net(raw: u32)
    ensures
        net_of_ipv4(ipv4_of_net(raw)) == raw,
{
    lemma_bytes_recompose(raw);
}

/// Reassembling the four bytes of a 32-bit field yields the field back.
proof fn lemma_bytes_recompose(raw: u32)
    by (bit_vector)
    ensures
        (((raw & 0xff) as u8) as u32) | (((((raw >> 8) & 0xff) as u8) as u32) << 8)
            | (((((raw >> 16) & 0xff) as u8) as u32) << 16)
            | (((((raw >> 24) & 0xff) as u8) as u32) << 24) == raw,
{
}

/// Encoding is reversible as well: decoding the encoded 32-bit form yields
/// the original dotted-quad value, so the two conversions are mutually
/// inverse and decoding is deterministic on the 32-bit field alone.
pub proof fn lemma_ipv4_round_trip_addr(addr: Ipv4Address)
    ensures
        ipv4_of_net(net_of_ipv4(addr)) == addr,
{
    lemma_octets_decompose(addr.a, addr.b, addr.c, addr.d);
}

/// Relies on String::push: appends the given character to the end of the
/// string.
pub assume_specification[ String::push ](s: &mut String, c: char)
    ensures
        final(s)@ == old(s)@.push(c),
;

/// The decimal digit character for `d`, `0` through `9`.
pub open spec fn decimal_digit(d: u8) -> char
    recommends
        d < 10,
{
    if d == 0 {
        '0'
    } else if d == 1 {
        '1'
    } else if d == 2 {
        '2'
    } else if d == 3 {
        '3'
    } else if d == 4 {
        '4'
    } else if d == 5 {
        '5'
    } else if d == 6 {
        '6'
    } else if d == 7 {
        '7'
    } else if d == 8 {
        '8'
    } else {
        '9'
    }
}

/// The decimal rendering of one octet, without leading zeros.
pub open spec fn decimal_octet(n: u8) -> Seq<char> {
    if n < 10 {
        seq![decimal_digit(n)]
    } else if n < 100 {
        seq![decimal_digit(n / 10), decimal_digit(n % 10)]
    } else {
        seq![decimal_digit(n / 100), decimal_digit((n / 10) % 10), decimal_digit(n % 10)]
    }
}

/// The canonical dotted-quad text of an address: the four octets in decimal,
/// joined by dots.
pub open spec fn dotted_quad(addr: Ipv4Address) -> Seq<char> {
    decimal_octet(addr.a) + seq!['.'] + decimal_octet(addr.b) + seq!['.'] + decimal_octet(addr.c)
        + seq!['.'] + decimal_octet(addr.d)
}

/// The character for one decimal digit.
fn digit_char(d: u8) -> (c: char)
    requires
        d < 10,
    ensures
        c == decimal_digit(d),
{
    if d == 0 {
        '0'
    } else if d == 1 {
        '1'
    } else if d == 2 {
        '2'
    } else if d == 3 {
        '3'
    } else if d == 4 {
        '4'
    } else if d == 5 {
        '5'
    } else if d == 6 {
        '6'
    } else if d == 7 {
        '7'
    } else if d == 8 {
        '8'
    } else {
        '9'
    }
}

/// Appends the decimal rendering of one octet.
fn push_decimal_octet(s: &mut String, n: u8)
    ensures
        final(s)@ == old(s)@ + decimal_octet(n),
{
    if n >= 100 {
        let c = digit_char(n / 100);
        s.push(c);
    }
    if n >= 10 {
        let c = digit_char((n / 10) % 10);
        s.push(c);
    }
    let c = digit_char(n % 10);
    s.push(c);
    proof {
        assert(s@ =~= old(s)@ + decimal_octet(n));
    }
}

impl Ipv4Address {
    /// Renders the address as its canonical dotted-quad text.
    pub fn to_dotted(&self) -> (s: String)
        ensures
            s@ == dotted_quad(*self),
    {
        let mut s = String::new();
        push_decimal_octet(&mut s, self.a);
        s.push('.');
        push_decimal_octet(&mut s, self.b);
        s.push('.');
        push_decimal_octet(&mut s, self.c);
        s.push('.');
        push_decimal_octet(&mut s, self.d);
        proof {
            assert(s@ =~= dotted_quad(*self));
        }
        s
    }
}

/// Each octet packed into a 32-bit field can be read back from its byte.
proof fn lemma_octets_decompose(a: u8, b: u8, c: u8, d: u8)
    by (bit_vector)
    ensures
        ((((a as u32) | ((b as u32) << 8) | ((c as u32) << 16) | ((d as u32) << 24)) & 0xff) as u8)
            == a,
        (((((a as u32) | ((b as u32) << 8) | ((c as u32) << 16) | ((d as u32) << 24)) >> 8) & 0xff)
            as u8) == b,
        (((((a as u32) | ((b as u32) << 8) | ((c as u32) << 16) | ((d as u32) << 24)) >> 16) & 0xff)
            as u8) == c,
        (((((a as u32) | ((b as u32) << 8) | ((c as u32) << 16) | ((d as u32) << 24)) >> 24) & 0xff)
            as u8) == d,
{
}

} // verus!
