use vstd::prelude::*;

verus! {

/// A protocol that can be advertised through ALPN.
#[derive(Debug, Clone, Copy, PartialEq, Eq, Structural)]
pub enum AlpnProtocol {
    /// Advertise HTTP/1.1
    Http1,
    /// Advertise HTTP/2
    Http2,
}

impl Default for AlpnProtocol {
    fn default() -> (p: AlpnProtocol)
        ensures
            p == AlpnProtocol::Http1,
    {
        AlpnProtocol::Http1
    }
}

impl AlpnProtocol {
    /// The protocol's identifier, in ASCII: `http/1.1` or `h2`.
    pub open spec fn identifier(self) -> Seq<u8> {
        match self {
            AlpnProtocol::Http1 => seq![104u8, 116u8, 116u8, 112u8, 47u8, 49u8, 46u8, 49u8],
            AlpnProtocol::Http2 => seq![104u8, 50u8],
        }
    }

    /// The protocol as it stands in an ALPN list: one length byte, then the identifier.
    pub open spec fn wire_form(self) -> Seq<u8> {
        seq![self.identifier().len() as u8] + self.identifier()
    }

    /// The ALPN list of the given protocols: their wire forms, one after the other.
    pub open spec fn serialized(input: Seq<AlpnProtocol>) -> Seq<u8>
        decreases input.len(),
    {
        if input.len() == 0 {
            Seq::empty()
        } else {
            Self::serialized(input.drop_last()) + input.last().wire_form()
        }
    }

    /// Writes the ALPN list of the given protocols, in the order given.
    pub fn serialize(input: &[Self]) -> (buf: Vec<u8>)
        ensures
            buf@ == Self::serialized(input@),
    {
        let mut buf: Vec<u8> = Vec::new();
        let mut i: usize = 0;
        while i < input.len()
            invariant
                i <= input.len(),
                buf@ == Self::serialized(input@.take(i as int)),
            decreases input.len() - i,
        {
            proof {
                let next = input@.take(i + 1);
                assert(next.drop_last() == input@.take(i as int));
                assert(next.last() == input@[i as int]);
            }
            let wire = input[i].as_bytes();
            buf.extend_from_slice(wire.as_slice());
            i += 1;
        }
        assert(input@.take(i as int) == input@);
        buf
    }

    /// The length of the protocol's identifier.
    pub fn len(&self) -> (n: usize)
        ensures
            n == self.identifier().len(),
    {
        match self {
            AlpnProtocol::Http1 => 8,
            AlpnProtocol::Http2 => 2,
        }
    }

    /// The protocol as it stands in an ALPN list.
    pub fn as_bytes(&self) -> (wire: Vec<u8>)
        ensures
            wire@ == self.wire_form(),
    {
        let wire: Vec<u8> = match self {
            AlpnProtocol::Http1 => vec![8, 104, 116, 116, 112, 47, 49, 46, 49],
            AlpnProtocol::Http2 => vec![2, 104, 50],
        };
        assert(wire@ =~= self.wire_form());
        wire
    }
}

} // verus!
