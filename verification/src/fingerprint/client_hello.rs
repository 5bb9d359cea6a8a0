//! The fields of a ClientHello that a fingerprint is made from.

use vstd::prelude::*;

verus! {

/// One extension of a ClientHello: its type and its payload as sent.
#[derive(Debug)]
pub struct Extension {
    pub ext_type: u16,
    pub data: Vec<u8>,
}

/// What an [`Extension`] holds, as mathematical values.
pub struct ExtensionView {
    pub ext_type: u16,
    pub data: Seq<u8>,
}

impl View for Extension {
    type V = ExtensionView;

    open spec fn view(&self) -> ExtensionView {
        ExtensionView { ext_type: self.ext_type, data: self.data@ }
    }
}

/// The handshake fields taken from one captured ClientHello.
#[derive(Debug)]
pub struct ClientHello {
    /// The protocol version field of the message.
    pub tls_version: u16,
    /// The cipher suite codes, in the order offered.
    pub cipher_suites: Vec<u16>,
    /// The extensions, in the order sent.
    pub extensions: Vec<Extension>,
    /// The protocol names of the ALPN extension, in the order advertised.
    pub alpn_protocols: Vec<String>,
    /// Whether a server name extension was sent.
    pub has_sni: bool,
}

/// What a [`ClientHello`] holds, as mathematical values.
pub struct ClientHelloView {
    pub tls_version: u16,
    pub cipher_suites: Seq<u16>,
    pub extensions: Seq<ExtensionView>,
    pub alpn_protocols: Seq<Seq<char>>,
    pub has_sni: bool,
}

impl View for ClientHello {
    type V = ClientHelloView;

    open spec fn view(&self) -> ClientHelloView {
        ClientHelloView {
            tls_version: self.tls_version,
            cipher_suites: self.cipher_suites@,
            extensions: Seq::new(self.extensions@.len(), |i: int| self.extensions@[i]@),
            alpn_protocols: Seq::new(self.alpn_protocols@.len(), |i: int| self.alpn_protocols@[i]@),
            has_sni: self.has_sni,
        }
    }
}

impl ClientHelloView {
    /// The extension types, in the order sent.
    pub open spec fn extension_types(self) -> Seq<u16> {
        Seq::new(self.extensions.len(), |i: int| self.extensions[i].ext_type)
    }
}

} // verus!
