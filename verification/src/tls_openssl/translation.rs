//! What the engine has to be told, and in which order.
//!
//! A profile is translated into the calls that configure a client context. Their order is
//! fixed, for some settings depend on others: trust store, verification mode, ALPN list,
//! session tickets, version bounds, groups, signature algorithms, cipher list, OCSP status
//! request, signed certificate timestamps, encrypt-then-MAC, padding. A call that the engine
//! refuses ends the configuration: the context is discarded and built anew from the profile.

use crate::text::optional_text;
use crate::tls::version::TlsVersion;
use crate::tls_openssl::settings::OpensslSettings;
use crate::tls_openssl::settings::OpensslSettingsView;
use vstd::prelude::*;

verus! {

/// The protocol option that switches session tickets off.
pub const SSL_OP_NO_TICKET: u64 = 0x0000_4000;

/// The protocol option that switches encrypt-then-MAC off.
pub const SSL_OP_NO_ENCRYPT_THEN_MAC: u64 = 0x0008_0000;

/// The protocol option that pads the ClientHello.
pub const SSL_OP_TLSEXT_PADDING: u64 = 0x0000_0010;

/// A feature of the handshake that the engine has no control of its own for: it is switched
/// through the engine's protocol option bits.
#[derive(Debug, Clone, Copy, PartialEq, Eq, Structural)]
pub enum OptionFeature {
    /// Session tickets.
    SessionTicket,
    /// Encrypt-then-MAC.
    EncryptThenMac,
    /// Padding of the ClientHello.
    Padding,
}

/// Protocol option bits to set and to clear.
#[derive(Debug, Clone, Copy, PartialEq, Eq, Structural)]
pub struct OptionBits {
    pub set: u64,
    pub clear: u64,
}

impl OptionFeature {
    /// The option bits that switch the feature off: session tickets and encrypt-then-MAC
    /// have a bit that forbids them, which is set; padding has a bit that asks for it,
    /// which is cleared.
    pub open spec fn off_bits(self) -> OptionBits {
        match self {
            OptionFeature::SessionTicket => OptionBits { set: SSL_OP_NO_TICKET, clear: 0 },
            OptionFeature::EncryptThenMac => OptionBits {
                set: SSL_OP_NO_ENCRYPT_THEN_MAC,
                clear: 0,
            },
            OptionFeature::Padding => OptionBits { set: 0, clear: SSL_OP_TLSEXT_PADDING },
        }
    }

    /// The option bits that switch the feature off.
    pub fn bits_to_switch_off(&self) -> (bits: OptionBits)
        ensures
            bits == self.off_bits(),
    {
        match self {
            OptionFeature::SessionTicket => OptionBits { set: SSL_OP_NO_TICKET, clear: 0 },
            OptionFeature::EncryptThenMac => OptionBits {
                set: SSL_OP_NO_ENCRYPT_THEN_MAC,
                clear: 0,
            },
            OptionFeature::Padding => OptionBits { set: 0, clear: SSL_OP_TLSEXT_PADDING },
        }
    }
}

/// One call on the engine's client context.
#[derive(Debug, Clone, PartialEq, Eq)]
pub enum EngineCall {
    /// Install the profile's trust store as the verification store, sharing it.
    SetVerifyCertStore,
    /// Set the verification mode: verify the peer, or verify nothing.
    SetVerify { peer: bool },
    /// Set the ALPN list, in wire form.
    SetAlpnProtos(Vec<u8>),
    /// Set protocol option bits.
    SetOptions(u64),
    /// Set the lowest protocol version.
    SetMinProtoVersion(TlsVersion),
    /// Set the highest protocol version.
    SetMaxProtoVersion(TlsVersion),
    /// Set the list of groups.
    SetGroupsList(String),
    /// Set the list of signature algorithms.
    SetSigalgsList(String),
    /// Set the cipher list.
    SetCipherList(String),
    /// Request the OCSP status type.
    RequestOcspStatus,
    /// Enable signed certificate timestamps.
    EnableSignedCertTimestamps,
    /// Clear protocol option bits.
    ClearOptions(u64),
}

/// What an [`EngineCall`] holds, as mathematical values.
pub enum EngineCallView {
    SetVerifyCertStore,
    SetVerify { peer: bool },
    SetAlpnProtos(Seq<u8>),
    SetOptions(u64),
    SetMinProtoVersion(TlsVersion),
    SetMaxProtoVersion(TlsVersion),
    SetGroupsList(Seq<char>),
    SetSigalgsList(Seq<char>),
    SetCipherList(Seq<char>),
    RequestOcspStatus,
    EnableSignedCertTimestamps,
    ClearOptions(u64),
}

impl View for EngineCall {
    type V = EngineCallView;

    open spec fn view(&self) -> EngineCallView {
        match self {
            EngineCall::SetVerifyCertStore => EngineCallView::SetVerifyCertStore,
            EngineCall::SetVerify { peer } => EngineCallView::SetVerify { peer: *peer },
            EngineCall::SetAlpnProtos(protos) => EngineCallView::SetAlpnProtos(protos@),
            EngineCall::SetOptions(bits) => EngineCallView::SetOptions(*bits),
            EngineCall::SetMinProtoVersion(v) => EngineCallView::SetMinProtoVersion(*v),
            EngineCall::SetMaxProtoVersion(v) => EngineCallView::SetMaxProtoVersion(*v),
            EngineCall::SetGroupsList(list) => EngineCallView::SetGroupsList(list@),
            EngineCall::SetSigalgsList(list) => EngineCallView::SetSigalgsList(list@),
            EngineCall::SetCipherList(list) => EngineCallView::SetCipherList(list@),
            EngineCall::RequestOcspStatus => EngineCallView::RequestOcspStatus,
            EngineCall::EnableSignedCertTimestamps => EngineCallView::EnableSignedCertTimestamps,
            EngineCall::ClearOptions(bits) => EngineCallView::ClearOptions(*bits),
        }
    }
}

/// The views of a list of calls.
pub open spec fn calls_view(calls: Seq<EngineCall>) -> Seq<EngineCallView> {
    Seq::new(calls.len(), |i: int| calls[i]@)
}

/// A call that is made only on a condition.
pub open spec fn call_if(condition: bool, call: EngineCallView) -> Seq<EngineCallView> {
    if condition {
        seq![call]
    } else {
        Seq::empty()
    }
}

/// The calls that switch a feature off, where the profile says so: bits are set and bits
/// are cleared, as far as there are any. A feature that the profile switches on, or says
/// nothing of, is left to the engine.
pub open spec fn switch_calls(feature: OptionFeature, wanted: Option<bool>) -> Seq<EngineCallView> {
    if wanted == Some(false) {
        call_if(feature.off_bits().set != 0, EngineCallView::SetOptions(feature.off_bits().set))
            + call_if(
            feature.off_bits().clear != 0,
            EngineCallView::ClearOptions(feature.off_bits().clear),
        )
    } else {
        Seq::empty()
    }
}

/// The call that sets the lowest protocol version, where one is set.
pub open spec fn min_version_call(version: Option<TlsVersion>) -> Seq<EngineCallView> {
    match version {
        Some(v) => seq![EngineCallView::SetMinProtoVersion(v)],
        None => Seq::empty(),
    }
}

/// The call that sets the highest protocol version, where one is set.
pub open spec fn max_version_call(version: Option<TlsVersion>) -> Seq<EngineCallView> {
    match version {
        Some(v) => seq![EngineCallView::SetMaxProtoVersion(v)],
        None => Seq::empty(),
    }
}

/// The call that sets the list of groups, where one is set.
pub open spec fn groups_call(list: Option<Seq<char>>) -> Seq<EngineCallView> {
    match list {
        Some(text) => seq![EngineCallView::SetGroupsList(text)],
        None => Seq::empty(),
    }
}

/// The call that sets the list of signature algorithms, where one is set.
pub open spec fn sigalgs_call(list: Option<Seq<char>>) -> Seq<EngineCallView> {
    match list {
        Some(text) => seq![EngineCallView::SetSigalgsList(text)],
        None => Seq::empty(),
    }
}

/// The call that sets the cipher list, where one is set.
pub open spec fn cipher_list_call(list: Option<Seq<char>>) -> Seq<EngineCallView> {
    match list {
        Some(text) => seq![EngineCallView::SetCipherList(text)],
        None => Seq::empty(),
    }
}

/// The calls that decide what is verified, and against which certificates: the installing
/// of the trust store and the verification mode. They leave the ClientHello as it is.
pub open spec fn verification_calls(settings: OpensslSettingsView) -> Seq<EngineCallView> {
    call_if(
        settings.certs_store is Some,
        EngineCallView::SetVerifyCertStore,
    ) + seq![
        EngineCallView::SetVerify { peer: settings.certs_verification },
    ]
}

/// The calls that shape the ClientHello: all the calls behind those on verification.
pub open spec fn hello_calls(settings: OpensslSettingsView) -> Seq<EngineCallView> {
    seq![EngineCallView::SetAlpnProtos(settings.alpn_protos)] + switch_calls(
        OptionFeature::SessionTicket,
        settings.session_ticket,
    ) + min_version_call(settings.min_tls_version) + max_version_call(settings.max_tls_version)
        + groups_call(settings.curves) + sigalgs_call(settings.signature_algorithms)
        + cipher_list_call(settings.ciphers) + call_if(
        settings.enable_ocsp_stapling || settings.enable_signed_cert_timestamps,
        EngineCallView::RequestOcspStatus,
    ) + call_if(
        settings.enable_signed_cert_timestamps,
        EngineCallView::EnableSignedCertTimestamps,
    ) + switch_calls(OptionFeature::EncryptThenMac, settings.encrypt_then_mac) + switch_calls(
        OptionFeature::Padding,
        settings.padding,
    )
}

/// The calls that configure a client context for a profile, in the order in which they are
/// made: the calls on verification, then the calls that shape the ClientHello.
///
/// The OCSP status is requested where the profile asks for a stapled OCSP response, and also
/// where it asks for signed certificate timestamps, which the server staples alongside.
pub open spec fn translation(settings: OpensslSettingsView) -> Seq<EngineCallView> {
    verification_calls(settings) + hello_calls(settings)
}

/// Appends a call to the list.
fn push_call(calls: &mut Vec<EngineCall>, call: EngineCall)
    ensures
        calls_view(final(calls)@) == calls_view(old(calls)@) + seq![call@],
{
    calls.push(call);
    assert(calls_view(calls@) =~= calls_view(old(calls)@) + seq![call@]);
}

/// Appends a call to the list if the condition holds.
fn push_when(calls: &mut Vec<EngineCall>, condition: bool, call: EngineCall)
    ensures
        calls_view(final(calls)@) == calls_view(old(calls)@) + call_if(condition, call@),
{
    if condition {
        push_call(calls, call);
    }
    assert(calls_view(calls@) =~= calls_view(old(calls)@) + call_if(condition, call@));
}

/// Appends the calls that switch a feature off, where the profile says so.
fn push_switch(calls: &mut Vec<EngineCall>, feature: OptionFeature, wanted: Option<bool>)
    ensures
        calls_view(final(calls)@) == calls_view(old(calls)@) + switch_calls(feature, wanted),
{
    if let Some(false) = wanted {
        let bits = feature.bits_to_switch_off();
        push_when(calls, bits.set != 0, EngineCall::SetOptions(bits.set));
        push_when(calls, bits.clear != 0, EngineCall::ClearOptions(bits.clear));
    }
    assert(calls_view(calls@) =~= calls_view(old(calls)@) + switch_calls(feature, wanted));
}

/// Appends the calls that set the version bounds.
fn push_version_bounds(
    calls: &mut Vec<EngineCall>,
    min: Option<TlsVersion>,
    max: Option<TlsVersion>,
)
    ensures
        calls_view(final(calls)@) == calls_view(old(calls)@) + min_version_call(min)
            + max_version_call(max),
{
    if let Some(version) = min {
        push_call(calls, EngineCall::SetMinProtoVersion(version));
    }
    assert(calls_view(calls@) =~= calls_view(old(calls)@) + min_version_call(min));
    if let Some(version) = max {
        push_call(calls, EngineCall::SetMaxProtoVersion(version));
    }
    assert(calls_view(calls@) =~= calls_view(old(calls)@) + min_version_call(min)
        + max_version_call(max));
}

/// Appends the call that sets the list of groups.
fn push_groups(calls: &mut Vec<EngineCall>, list: &Option<String>)
    ensures
        calls_view(final(calls)@) == calls_view(old(calls)@) + groups_call(optional_text(*list)),
{
    if let Some(text) = list {
        push_call(calls, EngineCall::SetGroupsList(text.clone()));
    }
    assert(calls_view(calls@) =~= calls_view(old(calls)@) + groups_call(optional_text(*list)));
}

/// Appends the call that sets the list of signature algorithms.
fn push_sigalgs(calls: &mut Vec<EngineCall>, list: &Option<String>)
    ensures
        calls_view(final(calls)@) == calls_view(old(calls)@) + sigalgs_call(optional_text(*list)),
{
    if let Some(text) = list {
        push_call(calls, EngineCall::SetSigalgsList(text.clone()));
    }
    assert(calls_view(calls@) =~= calls_view(old(calls)@) + sigalgs_call(optional_text(*list)));
}

/// Appends the call that sets the cipher list.
fn push_cipher_list(calls: &mut Vec<EngineCall>, list: &Option<String>)
    ensures
        calls_view(final(calls)@) == calls_view(old(calls)@) + cipher_list_call(optional_text(*list)),
{
    if let Some(text) = list {
        push_call(calls, EngineCall::SetCipherList(text.clone()));
    }
    assert(calls_view(calls@) =~= calls_view(old(calls)@) + cipher_list_call(optional_text(*list)));
}

impl OpensslSettings {
    /// Lists the calls on verification.
    fn verification_list(&self) -> (calls: Vec<EngineCall>)
        ensures
            calls_view(calls@) == verification_calls(self@),
    {
        let mut calls: Vec<EngineCall> = Vec::new();
        assert(calls_view(calls@) =~= Seq::empty());
        push_when(&mut calls, self.certs_store.is_some(), EngineCall::SetVerifyCertStore);
        push_call(&mut calls, EngineCall::SetVerify { peer: self.certs_verification });
        assert(calls_view(calls@) =~= verification_calls(self@));
        calls
    }

    /// Lists the calls that shape the ClientHello.
    fn hello_list(&self) -> (calls: Vec<EngineCall>)
        ensures
            calls_view(calls@) == hello_calls(self@),
    {
        let mut calls: Vec<EngineCall> = Vec::new();
        assert(calls_view(calls@) =~= Seq::empty());
        push_call(&mut calls, EngineCall::SetAlpnProtos(self.alpn_protos.clone()));
        assert(calls_view(calls@) =~= seq![EngineCallView::SetAlpnProtos(self@.alpn_protos)]);
        push_switch(&mut calls, OptionFeature::SessionTicket, self.session_ticket);
        push_version_bounds(&mut calls, self.min_tls_version, self.max_tls_version);
        push_groups(&mut calls, &self.curves);
        push_sigalgs(&mut calls, &self.signature_algorithms);
        push_cipher_list(&mut calls, &self.ciphers);
        push_when(
            &mut calls,
            self.enable_ocsp_stapling || self.enable_signed_cert_timestamps,
            EngineCall::RequestOcspStatus,
        );
        push_when(
            &mut calls,
            self.enable_signed_cert_timestamps,
            EngineCall::EnableSignedCertTimestamps,
        );
        push_switch(&mut calls, OptionFeature::EncryptThenMac, self.encrypt_then_mac);
        push_switch(&mut calls, OptionFeature::Padding, self.padding);
        calls
    }

    /// Lists the calls that configure a client context for this profile, in the order in
    /// which they are to be made. The list depends on the profile alone.
    pub fn engine_calls(&self) -> (calls: Vec<EngineCall>)
        ensures
            calls_view(calls@) == translation(self@),
    {
        let mut calls = self.verification_list();
        let mut hello = self.hello_list();
        let ghost verification = calls@;
        let ghost shaping = hello@;
        calls.append(&mut hello);
        assert(calls_view(calls@) =~= calls_view(verification) + calls_view(shaping));
        calls
    }
}

} // verus!
