//! IP addresses as plain values, and the dotted-decimal text of an IPv4 address.

use vstd::prelude::*;
use vstd::string::*;

verus! {

/// An IPv4 address, one field for each of its four octets, first octet first.
#[derive(Clone, Copy, Debug, PartialEq, Eq, Structural)]
pub struct Ipv4Address {
    pub a: u8,
    pub b: u8,
    pub c: u8,
    pub d: u8,
}

/// An IP address of either family. An IPv6 address is held as its 128 bits.
#[derive(Clone, Copy, Debug, PartialEq, Eq, Structural)]
pub enum IpAddress {
    V4(Ipv4Address),
    V6(u128),
}

/// The character that writes the decimal digit `d`.
pub open spec fn digit_char(d: nat) -> char {
    if d == 0 {
        '0'
    } else if d == 1 {
        '1'
    } else if d == 2 {
        '2'
    } else if d == 3 {
        '3'
    } else if d == 4 {
        '4'
    } else if d == 5 {
        '5'
    } else if d == 6 {
        '6'
    } else if d == 7 {
        '7'
    } else if d == 8 {
        '8'
    } else {
        '9'
    }
}

/// The decimal digits of `n`, most significant first, without leading zeros.
pub open spec fn decimal_text(n: nat) -> Seq<char>
    decreases n,
{
    if n < 10 {
        seq![digit_char(n)]
    } else {
        decimal_text(n / 10).push(digit_char(n % 10))
    }
}

/// Decimal text is never empty and holds no dot.
pub proof fn lemma_decimal_text_has_no_dot(n: nat)
    ensures
        decimal_text(n).len() >= 1,
        !decimal_text(n).contains('.'),
    decreases n,
{
    if n >= 10 {
        lemma_decimal_text_has_no_dot(n / 10);
        let head = decimal_text(n / 10);
        let all = decimal_text(n);
        assert forall|j: int| 0 <= j < all.len() implies all[j] != '.' by {
            if j < head.len() {
                assert(head.contains(head[j]));
            }
        }
    }
}

impl Ipv4Address {
    /// The address in dotted-decimal notation.
    pub open spec fn text(self) -> Seq<char> {
        decimal_text(self.a as nat) + seq!['.'] + decimal_text(self.b as nat) + seq!['.']
            + decimal_text(self.c as nat) + seq!['.'] + decimal_text(self.d as nat)
    }

    /// The address that shares the first three octets and ends in 1.
    pub open spec fn gateway(self) -> Ipv4Address {
        Ipv4Address { a: self.a, b: self.b, c: self.c, d: 1 }
    }

    /// The gateway that is assumed for a host at this address: the same
    /// first three octets, and 1 as the last, whatever the last octet was.
    pub fn inferred_gateway(&self) -> (gateway: Ipv4Address)
        ensures
            gateway == self.gateway(),
    {
        Ipv4Address { a: self.a, b: self.b, c: self.c, d: 1 }
    }

    /// Writes the address in dotted-decimal notation.
    pub fn to_text(&self) -> (text: String)
        ensures
            text@ == self.text(),
    {
        let mut text = String::new();
        push_octet(&mut text, self.a);
        text.append(".");
        push_octet(&mut text, self.b);
        text.append(".");
        push_octet(&mut text, self.c);
        text.append(".");
        push_octet(&mut text, self.d);
        proof {
            reveal_strlit(".");
            assert("."@ =~= seq!['.']);
            assert(text@ =~= self.text());
        }
        text
    }
}

/// The one-character text of a decimal digit.
fn digit_str(d: u8) -> (s: &'static str)
    requires
        d < 10,
    ensures
        s@ == seq![digit_char(d as nat)],
{
    proof {
        reveal_strlit("0");
        reveal_strlit("1");
        reveal_strlit("2");
        reveal_strlit("3");
        reveal_strlit("4");
        reveal_strlit("5");
        reveal_strlit("6");
        reveal_strlit("7");
        reveal_strlit("8");
        reveal_strlit("9");
    }
    let s: &'static str = match d {
        0 => "0",
        1 => "1",
        2 => "2",
        3 => "3",
        4 => "4",
        5 => "5",
        6 => "6",
        7 => "7",
        8 => "8",
        _ => "9",
    };
    assert(s@ =~= seq![digit_char(d as nat)]);
    s
}

/// Appends the decimal text of one octet.
fn push_octet(out: &mut String, n: u8)
    ensures
        final(out)@ == old(out)@ + decimal_text(n as nat),
{
    proof {
        reveal_with_fuel(decimal_text, 3);
    }
    if n >= 100 {
        out.append(digit_str(n / 100));
    }
    if n >= 10 {
        out.append(digit_str((n / 10) % 10));
    }
    out.append(digit_str(n % 10));
    assert(out@ =~= old(out)@ + decimal_text(n as nat));
}

} // verus!
