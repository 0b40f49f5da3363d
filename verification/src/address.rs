//! Internet addresses as plain numbers.

use crate::text::{decimal, hexadecimal, push_decimal, push_hexadecimal};
use vstd::prelude::*;

verus! {

/// An IPv4 or IPv6 address.
#[derive(Clone, Copy, Debug, PartialEq, Eq, Structural)]
pub enum IpAddress {
    /// The four octets, first one first.
    V4(u8, u8, u8, u8),
    /// The eight groups, first one first.
    V6(u16, u16, u16, u16, u16, u16, u16, u16),
}

/// Four numbers in dotted decimal.
pub open spec fn dotted(a: nat, b: nat, c: nat, d: nat) -> Seq<char> {
    decimal(a) + seq!['.'] + decimal(b) + seq!['.'] + decimal(c) + seq!['.'] + decimal(d)
}

/// Eight groups in hexadecimal with colons between them, none left out.
pub open spec fn coloned(g: Seq<nat>) -> Seq<char>
    recommends
        g.len() == 8,
{
    hexadecimal(g[0]) + seq![':'] + hexadecimal(g[1]) + seq![':'] + hexadecimal(g[2]) + seq![':']
        + hexadecimal(g[3]) + seq![':'] + hexadecimal(g[4]) + seq![':'] + hexadecimal(g[5])
        + seq![':'] + hexadecimal(g[6]) + seq![':'] + hexadecimal(g[7])
}

impl IpAddress {
    /// The address as text: dotted decimal for IPv4, eight colon-separated
    /// hexadecimal groups for IPv6.
    pub open spec fn spec_text(self) -> Seq<char> {
        match self {
            IpAddress::V4(a, b, c, d) => dotted(a as nat, b as nat, c as nat, d as nat),
            IpAddress::V6(a, b, c, d, e, f, g, h) => coloned(
                seq![a as nat, b as nat, c as nat, d as nat, e as nat, f as nat, g as nat, h as nat],
            ),
        }
    }

    /// Whether this is an IPv4 address.
    pub fn is_v4(&self) -> (r: bool)
        ensures
            r == (*self is V4),
    {
        match self {
            IpAddress::V4(..) => true,
            IpAddress::V6(..) => false,
        }
    }

    /// Appends the address as text.
    pub fn push_text(&self, out: &mut String)
        ensures
            final(out)@ == old(out)@ + self.spec_text(),
    {
        match self {
            IpAddress::V4(a, b, c, d) => {
                push_decimal(out, *a as u64);
                out.push('.');
                push_decimal(out, *b as u64);
                out.push('.');
                push_decimal(out, *c as u64);
                out.push('.');
                push_decimal(out, *d as u64);
                assert(final(out)@ =~= old(out)@ + self.spec_text());
            },
            IpAddress::V6(a, b, c, d, e, f, g, h) => {
                push_hexadecimal(out, *a as u64);
                out.push(':');
                push_hexadecimal(out, *b as u64);
                out.push(':');
                push_hexadecimal(out, *c as u64);
                out.push(':');
                push_hexadecimal(out, *d as u64);
                out.push(':');
                push_hexadecimal(out, *e as u64);
                out.push(':');
                push_hexadecimal(out, *f as u64);
                out.push(':');
                push_hexadecimal(out, *g as u64);
                out.push(':');
                push_hexadecimal(out, *h as u64);
                assert(final(out)@ =~= old(out)@ + self.spec_text());
            },
        }
    }

    /// The address as text.
    pub fn text(&self) -> (s: String)
        ensures
            s@ == self.spec_text(),
    {
        let mut s = String::new();
        self.push_text(&mut s);
        assert(s@ =~= self.spec_text());
        s
    }
}

} // verus!
