//! IPv4 addresses as the library holds them.
use vstd::prelude::*;

use crate::text::{cat, dec, dec_chars};

verus! {

/// An IPv4 address by its four octets, most significant first.
#[derive(Clone, Copy, PartialEq, Eq, Structural, Debug)]
pub struct Ipv4 {
    pub a: u8,
    pub b: u8,
    pub c: u8,
    pub d: u8,
}

/// How `Ipv4Addr`'s `Display` writes an address: dotted decimal.
pub open spec fn ipv4_text(ip: Ipv4) -> Seq<char> {
    dec(ip.a as nat) + seq!['.'] + dec(ip.b as nat) + seq!['.'] + dec(ip.c as nat) + seq!['.']
        + dec(ip.d as nat)
}

impl Ipv4 {
    pub fn new(a: u8, b: u8, c: u8, d: u8) -> (ip: Ipv4)
        ensures
            ip == (Ipv4 { a, b, c, d }),
    {
        Ipv4 { a, b, c, d }
    }

    /// `0.0.0.0`.
    pub open spec fn spec_is_unspecified(self) -> bool {
        self.a == 0 && self.b == 0 && self.c == 0 && self.d == 0
    }

    pub fn is_unspecified(&self) -> (r: bool)
        ensures
            r == self.spec_is_unspecified(),
    {
        self.a == 0 && self.b == 0 && self.c == 0 && self.d == 0
    }

    /// The dotted-decimal characters of the address.
    pub fn text_chars(&self) -> (r: Vec<char>)
        ensures
            r@ == ipv4_text(*self),
    {
        let mut dot: Vec<char> = Vec::new();
        dot.push('.');
        let r = dec_chars(self.a as u128);
        let r = cat(&r, &dot);
        let r = cat(&r, &dec_chars(self.b as u128));
        let r = cat(&r, &dot);
        let r = cat(&r, &dec_chars(self.c as u128));
        let r = cat(&r, &dot);
        let r = cat(&r, &dec_chars(self.d as u128));
        assert(dot@ =~= seq!['.']);
        r
    }
}

} // verus!
