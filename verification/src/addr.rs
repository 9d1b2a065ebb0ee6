//! IPv4 addresses and address blocks as plain values, and their textual forms.

use vstd::arithmetic::power2::{lemma2_to64, lemma2_to64_rest, pow2};
use vstd::bits::lemma_u32_shr_is_div;
use vstd::prelude::*;
use vstd::string::*;

verus! {

/// An IPv4 address, held as its four octets in network order.
#[derive(Clone, Copy, Debug, PartialEq, Eq, Structural)]
pub struct Ipv4 {
    pub a: u8,
    pub b: u8,
    pub c: u8,
    pub d: u8,
}

/// An IPv4 address together with the length of its network prefix.
#[derive(Clone, Copy, Debug, PartialEq, Eq, Structural)]
pub struct Cidr {
    pub address: Ipv4,
    pub prefix_len: u8,
}

/// The character for a decimal digit.
pub open spec fn digit_char(d: int) -> char
    recommends
        0 <= d < 10,
{
    if d == 0 {
        '0'
    } else if d == 1 {
        '1'
    } else if d == 2 {
        '2'
    } else if d == 3 {
        '3'
    } else if d == 4 {
        '4'
    } else if d == 5 {
        '5'
    } else if d == 6 {
        '6'
    } else if d == 7 {
        '7'
    } else if d == 8 {
        '8'
    } else {
        '9'
    }
}

/// A number below 256 in decimal, without leading zeros.
pub open spec fn decimal_text(n: u8) -> Seq<char> {
    if n < 10 {
        seq![digit_char(n as int)]
    } else if n < 100 {
        seq![digit_char(n as int / 10), digit_char(n as int % 10)]
    } else {
        seq![digit_char(n as int / 100), digit_char((n as int / 10) % 10), digit_char(n as int % 10)]
    }
}

/// An address in dotted-quad notation: its four octets in decimal, joined by
/// dots.
pub open spec fn ipv4_text(v: Ipv4) -> Seq<char> {
    decimal_text(v.a) + seq!['.'] + decimal_text(v.b) + seq!['.'] + decimal_text(v.c) + seq!['.']
        + decimal_text(v.d)
}

/// An address block in `address/prefix` notation.
pub open spec fn cidr_text(c: Cidr) -> Seq<char> {
    ipv4_text(c.address) + seq!['/'] + decimal_text(c.prefix_len)
}

/// The address block that a text denotes in `address/prefix` notation, if it
/// denotes one. This is what `Ipv4Cidr::from_str` of `embassy_net` makes of
/// the text; the grammar is that parser's and is not restated here.
pub uninterp spec fn cidr_text_value(text: Seq<char>) -> Option<Cidr>;

/// The address that a text denotes in dotted-quad notation, if it denotes
/// one. This is what `Ipv4Address::from_str` of `embassy_net` makes of the
/// text (that type is the standard library's `Ipv4Addr`, so the parser is
/// the standard one); its grammar is not restated here.
pub uninterp spec fn ipv4_text_value(text: Seq<char>) -> Option<Ipv4>;

impl Ipv4 {
    /// The address `a.b.c.d`.
    pub fn new(a: u8, b: u8, c: u8, d: u8) -> (r: Ipv4)
        ensures
            r == (Ipv4 { a, b, c, d }),
    {
        Ipv4 { a, b, c, d }
    }

    /// The address as a 32-bit number, first octet most significant.
    pub open spec fn bits(self) -> nat {
        (self.a as nat) * 16777216 + (self.b as nat) * 65536 + (self.c as nat) * 256
            + (self.d as nat)
    }

    /// The address in dotted-quad notation.
    pub fn to_text(self) -> (r: String)
        ensures
            r@ == ipv4_text(self),
    {
        let mut out = String::new();
        push_decimal(&mut out, self.a);
        out.append(".");
        push_decimal(&mut out, self.b);
        out.append(".");
        push_decimal(&mut out, self.c);
        out.append(".");
        push_decimal(&mut out, self.d);
        proof {
            reveal_strlit(".");
            assert("."@ =~= seq!['.']);
        }
        out
    }

    /// The address as a 32-bit number, first octet most significant.
    pub fn to_bits(self) -> (r: u32)
        ensures
            r as nat == self.bits(),
    {
        let a: u32 = self.a as u32;
        let b: u32 = self.b as u32;
        let c: u32 = self.c as u32;
        let d: u32 = self.d as u32;
        a * 16777216 + b * 65536 + c * 256 + d
    }
}

/// The network an address lies in under a prefix of the given length: the
/// number made of the address's leading `prefix_len` bits.
pub open spec fn network_part(address: Ipv4, prefix_len: u8) -> nat
    recommends
        prefix_len <= 32,
{
    address.bits() / pow2((32 - prefix_len) as nat)
}

impl Cidr {
    /// A prefix cannot be longer than the address.
    pub open spec fn wf(self) -> bool {
        self.prefix_len <= 32
    }

    /// The block in `address/prefix` notation.
    pub fn to_text(self) -> (r: String)
        ensures
            r@ == cidr_text(self),
    {
        let mut out = self.address.to_text();
        out.append("/");
        push_decimal(&mut out, self.prefix_len);
        proof {
            reveal_strlit("/");
            assert("/"@ =~= seq!['/']);
        }
        out
    }

    /// The address lies in this block's network.
    pub open spec fn contains(self, other: Ipv4) -> bool {
        network_part(self.address, self.prefix_len) == network_part(other, self.prefix_len)
    }

    /// Whether the address lies in this block's network, that is, agrees
    /// with the block's own address on the leading `prefix_len` bits.
    pub fn contains_address(self, other: Ipv4) -> (r: bool)
        requires
            self.wf(),
        ensures
            r == self.contains(other),
    {
        let mine: u32 = self.address.to_bits();
        let theirs: u32 = other.to_bits();
        if self.prefix_len == 0 {
            proof {
                lemma2_to64();
                lemma2_to64_rest();
                assert(pow2(32) == 0x1_0000_0000);
                assert(self.address.bits() / 0x1_0000_0000 == 0);
                assert(other.bits() / 0x1_0000_0000 == 0);
            }
            true
        } else {
            let shift: u32 = 32 - self.prefix_len as u32;
            proof {
                lemma_u32_shr_is_div(mine, shift);
                lemma_u32_shr_is_div(theirs, shift);
                assert(shift as nat == (32 - self.prefix_len) as nat);
                assert((mine >> shift) as nat == network_part(self.address, self.prefix_len));
                assert((theirs >> shift) as nat == network_part(other, self.prefix_len));
            }
            (mine >> shift) == (theirs >> shift)
        }
    }
}

/// One decimal digit as a text of its own.
fn digit_text(d: u8) -> (r: &'static str)
    requires
        d < 10,
    ensures
        r@ == seq![digit_char(d as int)],
{
    proof {
        reveal_strlit("0");
        reveal_strlit("1");
        reveal_strlit("2");
        reveal_strlit("3");
        reveal_strlit("4");
        reveal_strlit("5");
        reveal_strlit("6");
        reveal_strlit("7");
        reveal_strlit("8");
        reveal_strlit("9");
    }
    let r = if d == 0 {
        "0"
    } else if d == 1 {
        "1"
    } else if d == 2 {
        "2"
    } else if d == 3 {
        "3"
    } else if d == 4 {
        "4"
    } else if d == 5 {
        "5"
    } else if d == 6 {
        "6"
    } else if d == 7 {
        "7"
    } else if d == 8 {
        "8"
    } else {
        "9"
    };
    assert(r@ =~= seq![digit_char(d as int)]);
    r
}

/// Appends a number in decimal, without leading zeros.
fn push_decimal(out: &mut String, n: u8)
    ensures
        final(out)@ == old(out)@ + decimal_text(n),
{
    if n >= 100 {
        out.append(digit_text(n / 100));
    }
    if n >= 10 {
        out.append(digit_text((n / 10) % 10));
    }
    out.append(digit_text(n % 10));
    assert(out@ =~= old(out)@ + decimal_text(n));
}

/// Calls `Ipv4Cidr::from_str` of `embassy_net` on the text and copies the
/// octets and the prefix length out of what it returns. Trusted: the result
/// is the value the parser gives this text; a parsed prefix length is at
/// most 32 (the parser refuses 33 and above); and the parser reads the
/// plain notation of a block, decimal octets without leading zeros and a
/// prefix length of at most 32, as that block.
#[verifier::external_body]
pub(crate) fn parse_cidr_text(text: &str) -> (r: Option<Cidr>)
    ensures
        r == cidr_text_value(text@),
        r matches Some(c) ==> c.wf(),
        forall|c: Cidr| c.wf() && text@ == #[trigger] cidr_text(c) ==> r == Some(c),
{
    match text.parse::<embassy_net::Ipv4Cidr>() {
        Ok(c) => {
            let o = c.address().octets();
            Some(Cidr { address: Ipv4 { a: o[0], b: o[1], c: o[2], d: o[3] }, prefix_len: c.prefix_len() })
        },
        Err(_) => None,
    }
}

/// Calls `Ipv4Address::from_str` of `embassy_net` (the standard library's
/// parser for `Ipv4Addr`) on the text and copies the octets out of what it
/// returns. Trusted: the result is the value the parser gives this text,
/// and the parser reads the plain dotted-quad notation of an address,
/// decimal octets without leading zeros, as that address.
#[verifier::external_body]
pub(crate) fn parse_ipv4_text(text: &str) -> (r: Option<Ipv4>)
    ensures
        r == ipv4_text_value(text@),
        forall|v: Ipv4| text@ == #[trigger] ipv4_text(v) ==> r == Some(v),
{
    match text.parse::<embassy_net::Ipv4Address>() {
        Ok(ip) => {
            let o = ip.octets();
            Some(Ipv4 { a: o[0], b: o[1], c: o[2], d: o[3] })
        },
        Err(_) => None,
    }
}

} // verus!
