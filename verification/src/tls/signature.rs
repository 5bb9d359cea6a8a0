use crate::tls::names::join;
use crate::tls::names::joined;
use crate::tls::names::texts;
use vstd::prelude::*;

verus! {

/// A signature algorithm that can be offered.
#[allow(non_camel_case_types)]
#[derive(Debug, Clone, Copy, PartialEq, Eq, Structural)]
pub enum SignatureAlgorithm {
    ECDSA_SHA1,
    ECDSA_SECP256R1_SHA256,
    ECDSA_SECP384R1_SHA384,
    ECDSA_SECP521R1_SHA512,
    RSA_PSS_RSAE_SHA256,
    RSA_PSS_RSAE_SHA384,
    RSA_PSS_RSAE_SHA512,
    RSA_PKCS1_SHA1,
    RSA_PKCS1_SHA256,
    RSA_PKCS1_SHA384,
    RSA_PKCS1_SHA512,
    ED25519,
}

impl SignatureAlgorithm {
    /// The name by which the engine knows the signature algorithm.
    pub open spec fn name(self) -> Seq<char> {
        match self {
            SignatureAlgorithm::ECDSA_SHA1 => "ecdsa_sha1"@,
            SignatureAlgorithm::ECDSA_SECP256R1_SHA256 => "ecdsa_secp256r1_sha256"@,
            SignatureAlgorithm::ECDSA_SECP384R1_SHA384 => "ecdsa_secp384r1_sha384"@,
            SignatureAlgorithm::ECDSA_SECP521R1_SHA512 => "ecdsa_secp521r1_sha512"@,
            SignatureAlgorithm::RSA_PSS_RSAE_SHA256 => "rsa_pss_rsae_sha256"@,
            SignatureAlgorithm::RSA_PSS_RSAE_SHA384 => "rsa_pss_rsae_sha384"@,
            SignatureAlgorithm::RSA_PSS_RSAE_SHA512 => "rsa_pss_rsae_sha512"@,
            SignatureAlgorithm::RSA_PKCS1_SHA1 => "rsa_pkcs1_sha1"@,
            SignatureAlgorithm::RSA_PKCS1_SHA256 => "rsa_pkcs1_sha256"@,
            SignatureAlgorithm::RSA_PKCS1_SHA384 => "rsa_pkcs1_sha384"@,
            SignatureAlgorithm::RSA_PKCS1_SHA512 => "rsa_pkcs1_sha512"@,
            SignatureAlgorithm::ED25519 => "ed25519"@,
        }
    }

    /// The names of the given items, in order.
    pub open spec fn names(input: Seq<SignatureAlgorithm>) -> Seq<Seq<char>> {
        Seq::new(input.len(), |i: int| input[i].name())
    }

    /// The signature algorithm list as the engine takes it: the names in order, joined by colons.
    pub open spec fn serialized(input: Seq<SignatureAlgorithm>) -> Seq<char> {
        joined(Self::names(input), ":"@)
    }

    /// Writes the list as the engine takes it, in the order given.
    pub fn serialize(input: &[Self]) -> (text: String)
        ensures
            text@ == Self::serialized(input@),
    {
        let mut parts: Vec<&'static str> = Vec::new();
        let mut i: usize = 0;
        while i < input.len()
            invariant
                i <= input.len(),
                parts@.len() == i,
                forall|k: int| 0 <= k < i ==> parts@[k]@ == input@[k].name(),
            decreases input.len() - i,
        {
            parts.push(input[i].as_str());
            i += 1;
        }
        assert(texts(parts@) =~= Self::names(input@));
        join(parts.as_slice(), ":")
    }

    /// The name by which the engine knows the signature algorithm.
    pub fn as_str(&self) -> (name: &'static str)
        ensures
            name@ == self.name(),
    {
        match self {
            SignatureAlgorithm::ECDSA_SHA1 => "ecdsa_sha1",
            SignatureAlgorithm::ECDSA_SECP256R1_SHA256 => "ecdsa_secp256r1_sha256",
            SignatureAlgorithm::ECDSA_SECP384R1_SHA384 => "ecdsa_secp384r1_sha384",
            SignatureAlgorithm::ECDSA_SECP521R1_SHA512 => "ecdsa_secp521r1_sha512",
            SignatureAlgorithm::RSA_PSS_RSAE_SHA256 => "rsa_pss_rsae_sha256",
            SignatureAlgorithm::RSA_PSS_RSAE_SHA384 => "rsa_pss_rsae_sha384",
            SignatureAlgorithm::RSA_PSS_RSAE_SHA512 => "rsa_pss_rsae_sha512",
            SignatureAlgorithm::RSA_PKCS1_SHA1 => "rsa_pkcs1_sha1",
            SignatureAlgorithm::RSA_PKCS1_SHA256 => "rsa_pkcs1_sha256",
            SignatureAlgorithm::RSA_PKCS1_SHA384 => "rsa_pkcs1_sha384",
            SignatureAlgorithm::RSA_PKCS1_SHA512 => "rsa_pkcs1_sha512",
            SignatureAlgorithm::ED25519 => "ed25519",
        }
    }
}

} // verus!
