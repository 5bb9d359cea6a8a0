use crate::tls::names::join;
use crate::tls::names::joined;
use crate::tls::names::texts;
use vstd::prelude::*;

verus! {

/// A named group for key exchange.
#[allow(non_camel_case_types)]
#[derive(Debug, Clone, Copy, PartialEq, Eq, Structural)]
pub enum SslCurve {
    X25519,
    X25519_KYBER768_DRAFT00,
    X25519_MLKEM768,
    SECP256R1,
    SECP384R1,
    SECP521R1,
    FFDHE2048,
    FFDHE3072,
}

impl SslCurve {
    /// The name by which the engine knows the group.
    pub open spec fn name(self) -> Seq<char> {
        match self {
            SslCurve::X25519 => "X25519"@,
            SslCurve::X25519_KYBER768_DRAFT00 => "X25519Kyber768Draft00"@,
            SslCurve::X25519_MLKEM768 => "X25519MLKEM768"@,
            SslCurve::SECP256R1 => "secp256r1"@,
            SslCurve::SECP384R1 => "secp384r1"@,
            SslCurve::SECP521R1 => "secp521r1"@,
            SslCurve::FFDHE2048 => "ffdhe2048"@,
            SslCurve::FFDHE3072 => "ffdhe3072"@,
        }
    }

    /// The names of the given items, in order.
    pub open spec fn names(input: Seq<SslCurve>) -> Seq<Seq<char>> {
        Seq::new(input.len(), |i: int| input[i].name())
    }

    /// The group list as the engine takes it: the names in order, joined by colons.
    pub open spec fn serialized(input: Seq<SslCurve>) -> Seq<char> {
        joined(Self::names(input), ":"@)
    }

    /// Writes the list as the engine takes it, in the order given.
    pub fn serialize(input: &[Self]) -> (text: String)
        ensures
            text@ == Self::serialized(input@),
    {
        let mut parts: Vec<&'static str> = Vec::new();
        let mut i: usize = 0;
        while i < input.len()
            invariant
                i <= input.len(),
                parts@.len() == i,
                forall|k: int| 0 <= k < i ==> parts@[k]@ == input@[k].name(),
            decreases input.len() - i,
        {
            parts.push(input[i].as_str());
            i += 1;
        }
        assert(texts(parts@) =~= Self::names(input@));
        join(parts.as_slice(), ":")
    }

    /// The name by which the engine knows the group.
    pub fn as_str(&self) -> (name: &'static str)
        ensures
            name@ == self.name(),
    {
        match self {
            SslCurve::X25519 => "X25519",
            SslCurve::X25519_KYBER768_DRAFT00 => "X25519Kyber768Draft00",
            SslCurve::X25519_MLKEM768 => "X25519MLKEM768",
            SslCurve::SECP256R1 => "secp256r1",
            SslCurve::SECP384R1 => "secp384r1",
            SslCurve::SECP521R1 => "secp521r1",
            SslCurve::FFDHE2048 => "ffdhe2048",
            SslCurve::FFDHE3072 => "ffdhe3072",
        }
    }
}

} // verus!
