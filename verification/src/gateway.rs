//! The gateway that is inferred from a host's own address.

use vstd::prelude::*;
use vstd::string::*;
use crate::address::{decimal_text, lemma_decimal_text_has_no_dot, Ipv4Address};
use crate::text::{
    find_nth, lemma_nth_index_of_bounds, lemma_nth_index_of_skips_prefix,
    lemma_nth_index_of_steps_over, nth_index_of,
};

verus! {

/// Whether `ip` holds the three dots that part the first three fields of a
/// dotted address from the fourth.
pub open spec fn has_four_fields(ip: Seq<char>) -> bool {
    nth_index_of(ip, '.', 2) < ip.len()
}

/// The text `ip` with its fourth dot-separated field replaced by `1`: what
/// stands up to and including the third dot, then `1`, then what stands from
/// the fourth dot on, if there is one.
pub open spec fn ip_to_gateway_spec(ip: Seq<char>) -> Seq<char> {
    ip.take(nth_index_of(ip, '.', 2) + 1) + seq!['1'] + ip.skip(nth_index_of(ip, '.', 3))
}

/// A later occurrence lies behind an earlier one.
pub proof fn lemma_nth_index_of_increases(s: Seq<char>, c: char, n: nat)
    ensures
        nth_index_of(s, c, n) < s.len() ==> nth_index_of(s, c, n) < nth_index_of(s, c, n + 1),
        nth_index_of(s, c, n) == s.len() ==> nth_index_of(s, c, n + 1) == s.len(),
    decreases s.len(),
{
    if s.len() != 0 {
        let rest = s.skip(1);
        if s[0] == c {
            if n == 0 {
                lemma_nth_index_of_bounds(rest, c, 0);
            } else {
                lemma_nth_index_of_increases(rest, c, (n - 1) as nat);
            }
        } else {
            lemma_nth_index_of_increases(rest, c, n);
        }
    }
}

/// Writes the gateway that goes with the dotted address `ip`: the fourth
/// field becomes `1`, every other field stays as it is.
pub fn ip_to_gateway(ip: &str) -> (gateway: String)
    requires
        has_four_fields(ip@),
    ensures
        gateway@ == ip_to_gateway_spec(ip@),
{
    let third: usize = find_nth(ip, '.', 2);
    let fourth: usize = find_nth(ip, '.', 3);
    let len: usize = ip.unicode_len();
    proof {
        lemma_nth_index_of_increases(ip@, '.', 2);
        lemma_nth_index_of_bounds(ip@, '.', 3);
    }
    let mut gateway = String::from_str(ip.substring_char(0, third + 1));
    gateway.append("1");
    gateway.append(ip.substring_char(fourth, len));
    proof {
        reveal_strlit("1");
        assert("1"@ =~= seq!['1']);
        assert(gateway@ =~= ip_to_gateway_spec(ip@));
    }
    gateway
}

/// For an address written as four fields `a.b.c.d`, none of which holds a
/// dot, the inferred gateway is `a.b.c.1`, whatever `d` is.
pub proof fn lemma_gateway_of_four_fields(a: Seq<char>, b: Seq<char>, c: Seq<char>, d: Seq<char>)
    requires
        !a.contains('.'),
        !b.contains('.'),
        !c.contains('.'),
        !d.contains('.'),
    ensures
        has_four_fields(a + seq!['.'] + b + seq!['.'] + c + seq!['.'] + d),
        ip_to_gateway_spec(a + seq!['.'] + b + seq!['.'] + c + seq!['.'] + d) == a + seq!['.'] + b
            + seq!['.'] + c + seq!['.'] + seq!['1'],
{
    let dot = seq!['.'];
    let ip = a + dot + b + dot + c + dot + d;
    let tail_d = dot + d;
    let tail_c = c + tail_d;
    let tail_b = b + (dot + tail_c);
    assert(ip =~= a + (dot + tail_b));
    // The third dot.
    lemma_nth_index_of_skips_prefix(a, dot + tail_b, '.', 2);
    lemma_nth_index_of_steps_over(tail_b, '.', 1);
    lemma_nth_index_of_skips_prefix(b, dot + tail_c, '.', 1);
    lemma_nth_index_of_steps_over(tail_c, '.', 0);
    lemma_nth_index_of_skips_prefix(c, tail_d, '.', 0);
    lemma_nth_index_of_steps_over(d, '.', 0);
    assert(nth_index_of(ip, '.', 2) == a.len() + b.len() + c.len() + 2);
    // The fourth dot, which is missing.
    lemma_nth_index_of_skips_prefix(a, dot + tail_b, '.', 3);
    lemma_nth_index_of_steps_over(tail_b, '.', 2);
    lemma_nth_index_of_skips_prefix(b, dot + tail_c, '.', 2);
    lemma_nth_index_of_steps_over(tail_c, '.', 1);
    lemma_nth_index_of_skips_prefix(c, tail_d, '.', 1);
    lemma_nth_index_of_steps_over(d, '.', 0);
    lemma_nth_index_of_skips_prefix(d, Seq::<char>::empty(), '.', 0);
    assert(d + Seq::<char>::empty() =~= d);
    assert(nth_index_of(ip, '.', 3) == ip.len());
    assert(ip.take((a.len() + b.len() + c.len() + 3) as int) =~= a + dot + b + dot + c + dot);
    assert(ip_to_gateway_spec(ip) =~= a + dot + b + dot + c + dot + seq!['1']);
}

/// The inferred gateway of the address `A.B.C.D` is `A.B.C.1`: from the text
/// of an address comes the text of the address that ends in 1.
pub proof fn lemma_gateway_of_address(ip: Ipv4Address)
    ensures
        has_four_fields(ip.text()),
        ip_to_gateway_spec(ip.text()) == ip.gateway().text(),
{
    lemma_decimal_text_has_no_dot(ip.a as nat);
    lemma_decimal_text_has_no_dot(ip.b as nat);
    lemma_decimal_text_has_no_dot(ip.c as nat);
    lemma_decimal_text_has_no_dot(ip.d as nat);
    lemma_gateway_of_four_fields(
        decimal_text(ip.a as nat),
        decimal_text(ip.b as nat),
        decimal_text(ip.c as nat),
        decimal_text(ip.d as nat),
    );
    assert(decimal_text(1) =~= seq!['1']);
}

} // verus!
