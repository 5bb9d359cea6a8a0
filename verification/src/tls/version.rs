use vstd::prelude::*;

verus! {

/// A TLS protocol version.
#[allow(non_camel_case_types)]
#[derive(Debug, Clone, Copy, PartialEq, Eq, Structural)]
pub enum TlsVersion {
    TLS1_0,
    TLS1_1,
    TLS1_2,
    TLS1_3,
}

impl TlsVersion {
    /// Position of the version in the protocol's history: 0 for TLS 1.0 up to 3 for TLS 1.3.
    pub open spec fn rank_spec(self) -> nat {
        match self {
            TlsVersion::TLS1_0 => 0,
            TlsVersion::TLS1_1 => 1,
            TlsVersion::TLS1_2 => 2,
            TlsVersion::TLS1_3 => 3,
        }
    }

    /// Position of the version in the protocol's history, by which versions are ordered.
    pub fn rank(&self) -> (r: u8)
        ensures
            r as nat == self.rank_spec(),
    {
        match self {
            TlsVersion::TLS1_0 => 0,
            TlsVersion::TLS1_1 => 1,
            TlsVersion::TLS1_2 => 2,
            TlsVersion::TLS1_3 => 3,
        }
    }
}

} // verus!
