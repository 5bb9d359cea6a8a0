use crate::tls::names::join;
use crate::tls::names::joined;
use crate::tls::names::texts;
use vstd::prelude::*;

verus! {

/// A cipher suite that can be offered.
#[allow(non_camel_case_types)]
#[derive(Debug, Clone, Copy, PartialEq, Eq, Structural)]
pub enum CipherSuite {
    TLS_AES_128_GCM_SHA256,
    TLS_AES_256_GCM_SHA384,
    TLS_CHACHA20_POLY1305_SHA256,
    TLS_ECDHE_ECDSA_WITH_AES_128_CBC_SHA,
    TLS_ECDHE_ECDSA_WITH_AES_128_CBC_SHA256,
    TLS_ECDHE_ECDSA_WITH_AES_128_GCM_SHA256,
    TLS_ECDHE_ECDSA_WITH_AES_256_CBC_SHA,
    TLS_ECDHE_ECDSA_WITH_AES_256_GCM_SHA384,
    TLS_ECDHE_ECDSA_WITH_CHACHA20_POLY1305_SHA256,
    TLS_ECDHE_ECDSA_WITH_3DES_EDE_CBC_SHA,
    TLS_ECDHE_RSA_WITH_AES_128_CBC_SHA,
    TLS_ECDHE_RSA_WITH_AES_128_CBC_SHA256,
    TLS_ECDHE_RSA_WITH_AES_128_GCM_SHA256,
    TLS_ECDHE_RSA_WITH_AES_256_CBC_SHA,
    TLS_ECDHE_RSA_WITH_AES_256_CBC_SHA384,
    TLS_ECDHE_RSA_WITH_AES_256_GCM_SHA384,
    TLS_ECDHE_RSA_WITH_CHACHA20_POLY1305_SHA256,
    TLS_ECDHE_RSA_WITH_3DES_EDE_CBC_SHA,
    TLS_RSA_WITH_AES_128_CBC_SHA,
    TLS_RSA_WITH_AES_128_CBC_SHA256,
    TLS_RSA_WITH_AES_128_GCM_SHA256,
    TLS_RSA_WITH_AES_256_CBC_SHA,
    TLS_RSA_WITH_AES_256_CBC_SHA256,
    TLS_RSA_WITH_AES_256_GCM_SHA384,
    TLS_RSA_WITH_3DES_EDE_CBC_SHA,
}

impl CipherSuite {
    /// The name by which the engine knows the cipher suite.
    pub open spec fn name(self) -> Seq<char> {
        match self {
            CipherSuite::TLS_AES_128_GCM_SHA256 => "TLS_AES_128_GCM_SHA256"@,
            CipherSuite::TLS_AES_256_GCM_SHA384 => "TLS_AES_256_GCM_SHA384"@,
            CipherSuite::TLS_CHACHA20_POLY1305_SHA256 => "TLS_CHACHA20_POLY1305_SHA256"@,
            CipherSuite::TLS_ECDHE_ECDSA_WITH_AES_128_CBC_SHA => "TLS_ECDHE_ECDSA_WITH_AES_128_CBC_SHA"@,
            CipherSuite::TLS_ECDHE_ECDSA_WITH_AES_128_CBC_SHA256 => "TLS_ECDHE_ECDSA_WITH_AES_128_CBC_SHA256"@,
            CipherSuite::TLS_ECDHE_ECDSA_WITH_AES_128_GCM_SHA256 => "TLS_ECDHE_ECDSA_WITH_AES_128_GCM_SHA256"@,
            CipherSuite::TLS_ECDHE_ECDSA_WITH_AES_256_CBC_SHA => "TLS_ECDHE_ECDSA_WITH_AES_256_CBC_SHA"@,
            CipherSuite::TLS_ECDHE_ECDSA_WITH_AES_256_GCM_SHA384 => "TLS_ECDHE_ECDSA_WITH_AES_256_GCM_SHA384"@,
            CipherSuite::TLS_ECDHE_ECDSA_WITH_CHACHA20_POLY1305_SHA256 => "TLS_ECDHE_ECDSA_WITH_CHACHA20_POLY1305_SHA256"@,
            CipherSuite::TLS_ECDHE_ECDSA_WITH_3DES_EDE_CBC_SHA => "TLS_ECDHE_ECDSA_WITH_3DES_EDE_CBC_SHA"@,
            CipherSuite::TLS_ECDHE_RSA_WITH_AES_128_CBC_SHA => "TLS_ECDHE_RSA_WITH_AES_128_CBC_SHA"@,
            CipherSuite::TLS_ECDHE_RSA_WITH_AES_128_CBC_SHA256 => "TLS_ECDHE_RSA_WITH_AES_128_CBC_SHA256"@,
            CipherSuite::TLS_ECDHE_RSA_WITH_AES_128_GCM_SHA256 => "TLS_ECDHE_RSA_WITH_AES_128_GCM_SHA256"@,
            CipherSuite::TLS_ECDHE_RSA_WITH_AES_256_CBC_SHA => "TLS_ECDHE_RSA_WITH_AES_256_CBC_SHA"@,
            CipherSuite::TLS_ECDHE_RSA_WITH_AES_256_CBC_SHA384 => "TLS_ECDHE_RSA_WITH_AES_256_CBC_SHA384"@,
            CipherSuite::TLS_ECDHE_RSA_WITH_AES_256_GCM_SHA384 => "TLS_ECDHE_RSA_WITH_AES_256_GCM_SHA384"@,
            CipherSuite::TLS_ECDHE_RSA_WITH_CHACHA20_POLY1305_SHA256 => "TLS_ECDHE_RSA_WITH_CHACHA20_POLY1305_SHA256"@,
            CipherSuite::TLS_ECDHE_RSA_WITH_3DES_EDE_CBC_SHA => "TLS_ECDHE_RSA_WITH_3DES_EDE_CBC_SHA"@,
            CipherSuite::TLS_RSA_WITH_AES_128_CBC_SHA => "TLS_RSA_WITH_AES_128_CBC_SHA"@,
            CipherSuite::TLS_RSA_WITH_AES_128_CBC_SHA256 => "TLS_RSA_WITH_AES_128_CBC_SHA256"@,
            CipherSuite::TLS_RSA_WITH_AES_128_GCM_SHA256 => "TLS_RSA_WITH_AES_128_GCM_SHA256"@,
            CipherSuite::TLS_RSA_WITH_AES_256_CBC_SHA => "TLS_RSA_WITH_AES_256_CBC_SHA"@,
            CipherSuite::TLS_RSA_WITH_AES_256_CBC_SHA256 => "TLS_RSA_WITH_AES_256_CBC_SHA256"@,
            CipherSuite::TLS_RSA_WITH_AES_256_GCM_SHA384 => "TLS_RSA_WITH_AES_256_GCM_SHA384"@,
            CipherSuite::TLS_RSA_WITH_3DES_EDE_CBC_SHA => "TLS_RSA_WITH_3DES_EDE_CBC_SHA"@,
        }
    }

    /// The names of the given items, in order.
    pub open spec fn names(input: Seq<CipherSuite>) -> Seq<Seq<char>> {
        Seq::new(input.len(), |i: int| input[i].name())
    }

    /// The cipher list as the engine takes it: the names in order, joined by colons.
    pub open spec fn serialized(input: Seq<CipherSuite>) -> Seq<char> {
        joined(Self::names(input), ":"@)
    }

    /// Writes the list as the engine takes it, in the order given.
    pub fn serialize(input: &[Self]) -> (text: String)
        ensures
            text@ == Self::serialized(input@),
    {
        let mut parts: Vec<&'static str> = Vec::new();
        let mut i: usize = 0;
        while i < input.len()
            invariant
                i <= input.len(),
                parts@.len() == i,
                forall|k: int| 0 <= k < i ==> parts@[k]@ == input@[k].name(),
            decreases input.len() - i,
        {
            parts.push(input[i].as_str());
            i += 1;
        }
        assert(texts(parts@) =~= Self::names(input@));
        join(parts.as_slice(), ":")
    }

    /// The name by which the engine knows the cipher suite.
    pub fn as_str(&self) -> (name: &'static str)
        ensures
            name@ == self.name(),
    {
        match self {
            CipherSuite::TLS_AES_128_GCM_SHA256 => "TLS_AES_128_GCM_SHA256",
            CipherSuite::TLS_AES_256_GCM_SHA384 => "TLS_AES_256_GCM_SHA384",
            CipherSuite::TLS_CHACHA20_POLY1305_SHA256 => "TLS_CHACHA20_POLY1305_SHA256",
            CipherSuite::TLS_ECDHE_ECDSA_WITH_AES_128_CBC_SHA => "TLS_ECDHE_ECDSA_WITH_AES_128_CBC_SHA",
            CipherSuite::TLS_ECDHE_ECDSA_WITH_AES_128_CBC_SHA256 => "TLS_ECDHE_ECDSA_WITH_AES_128_CBC_SHA256",
            CipherSuite::TLS_ECDHE_ECDSA_WITH_AES_128_GCM_SHA256 => "TLS_ECDHE_ECDSA_WITH_AES_128_GCM_SHA256",
            CipherSuite::TLS_ECDHE_ECDSA_WITH_AES_256_CBC_SHA => "TLS_ECDHE_ECDSA_WITH_AES_256_CBC_SHA",
            CipherSuite::TLS_ECDHE_ECDSA_WITH_AES_256_GCM_SHA384 => "TLS_ECDHE_ECDSA_WITH_AES_256_GCM_SHA384",
            CipherSuite::TLS_ECDHE_ECDSA_WITH_CHACHA20_POLY1305_SHA256 => "TLS_ECDHE_ECDSA_WITH_CHACHA20_POLY1305_SHA256",
            CipherSuite::TLS_ECDHE_ECDSA_WITH_3DES_EDE_CBC_SHA => "TLS_ECDHE_ECDSA_WITH_3DES_EDE_CBC_SHA",
            CipherSuite::TLS_ECDHE_RSA_WITH_AES_128_CBC_SHA => "TLS_ECDHE_RSA_WITH_AES_128_CBC_SHA",
            CipherSuite::TLS_ECDHE_RSA_WITH_AES_128_CBC_SHA256 => "TLS_ECDHE_RSA_WITH_AES_128_CBC_SHA256",
            CipherSuite::TLS_ECDHE_RSA_WITH_AES_128_GCM_SHA256 => "TLS_ECDHE_RSA_WITH_AES_128_GCM_SHA256",
            CipherSuite::TLS_ECDHE_RSA_WITH_AES_256_CBC_SHA => "TLS_ECDHE_RSA_WITH_AES_256_CBC_SHA",
            CipherSuite::TLS_ECDHE_RSA_WITH_AES_256_CBC_SHA384 => "TLS_ECDHE_RSA_WITH_AES_256_CBC_SHA384",
            CipherSuite::TLS_ECDHE_RSA_WITH_AES_256_GCM_SHA384 => "TLS_ECDHE_RSA_WITH_AES_256_GCM_SHA384",
            CipherSuite::TLS_ECDHE_RSA_WITH_CHACHA20_POLY1305_SHA256 => "TLS_ECDHE_RSA_WITH_CHACHA20_POLY1305_SHA256",
            CipherSuite::TLS_ECDHE_RSA_WITH_3DES_EDE_CBC_SHA => "TLS_ECDHE_RSA_WITH_3DES_EDE_CBC_SHA",
            CipherSuite::TLS_RSA_WITH_AES_128_CBC_SHA => "TLS_RSA_WITH_AES_128_CBC_SHA",
            CipherSuite::TLS_RSA_WITH_AES_128_CBC_SHA256 => "TLS_RSA_WITH_AES_128_CBC_SHA256",
            CipherSuite::TLS_RSA_WITH_AES_128_GCM_SHA256 => "TLS_RSA_WITH_AES_128_GCM_SHA256",
            CipherSuite::TLS_RSA_WITH_AES_256_CBC_SHA => "TLS_RSA_WITH_AES_256_CBC_SHA",
            CipherSuite::TLS_RSA_WITH_AES_256_CBC_SHA256 => "TLS_RSA_WITH_AES_256_CBC_SHA256",
            CipherSuite::TLS_RSA_WITH_AES_256_GCM_SHA384 => "TLS_RSA_WITH_AES_256_GCM_SHA384",
            CipherSuite::TLS_RSA_WITH_3DES_EDE_CBC_SHA => "TLS_RSA_WITH_3DES_EDE_CBC_SHA",
        }
    }
}

} // verus!
