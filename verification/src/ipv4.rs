//! Plain representation of an IPv4 address and its dotted-decimal text form.

use vstd::prelude::*;
use vstd::string::StringExecFns;

verus! {

/// An IPv4 address as four octets.
#[derive(Clone, Copy, PartialEq, Eq, Structural, Debug)]
pub struct Ipv4 {
    pub a: u8,
    pub b: u8,
    pub c: u8,
    pub d: u8,
}

/// The character for one decimal digit.
pub open spec fn digit_char(d: u8) -> char
    recommends
        d < 10,
{
    (('0' as u8) + d) as char
}

/// The decimal rendering of an octet, without leading zeros.
pub open spec fn dec_u8(v: u8) -> Seq<char> {
    if v >= 100 {
        seq![digit_char(v / 100), digit_char((v / 10) % 10), digit_char(v % 10)]
    } else if v >= 10 {
        seq![digit_char(v / 10), digit_char(v % 10)]
    } else {
        seq![digit_char(v)]
    }
}

/// The dotted-decimal text of an IPv4 address.
pub open spec fn ipv4_text(ip: Ipv4) -> Seq<char> {
    dec_u8(ip.a) + seq!['.'] + dec_u8(ip.b) + seq!['.'] + dec_u8(ip.c) + seq!['.'] + dec_u8(ip.d)
}

fn digit_str(d: u8) -> (r: &'static str)
    requires
        d < 10,
    ensures
        r@ == seq![digit_char(d)],
{
    proof {
        reveal_strlit("0");
        reveal_strlit("1");
        reveal_strlit("2");
        reveal_strlit("3");
        reveal_strlit("4");
        reveal_strlit("5");
        reveal_strlit("6");
        reveal_strlit("7");
        reveal_strlit("8");
        reveal_strlit("9");
    }
    let r = match d {
        0 => "0",
        1 => "1",
        2 => "2",
        3 => "3",
        4 => "4",
        5 => "5",
        6 => "6",
        7 => "7",
        8 => "8",
        _ => "9",
    };
    proof {
        assert(r@ =~= seq![digit_char(d)]);
    }
    r
}

fn push_dec_u8(s: &mut String, v: u8)
    ensures
        final(s)@ == old(s)@ + dec_u8(v),
{
    if v >= 100 {
        s.append(digit_str(v / 100));
        s.append(digit_str((v / 10) % 10));
        s.append(digit_str(v % 10));
    } else if v >= 10 {
        s.append(digit_str(v / 10));
        s.append(digit_str(v % 10));
    } else {
        s.append(digit_str(v));
    }
    proof {
        assert(final(s)@ =~= old(s)@ + dec_u8(v));
    }
}

/// Renders an IPv4 address in the dotted-decimal form used on the wire
/// and in the registry.
pub fn ipv4_string(ip: &Ipv4) -> (r: String)
    ensures
        r@ == ipv4_text(*ip),
{
    let mut s = String::new();
    push_dec_u8(&mut s, ip.a);
    s.append(".");
    push_dec_u8(&mut s, ip.b);
    s.append(".");
    push_dec_u8(&mut s, ip.c);
    s.append(".");
    push_dec_u8(&mut s, ip.d);
    proof {
        reveal_strlit(".");
        assert(s@ =~= ipv4_text(*ip));
    }
    s
}

} // verus!
