//! Carrying out a translation, call by call.
//!
//! The calls are made in their order. The first call that the engine refuses ends the
//! work: no later call is made, and the context is to be discarded.

use crate::tls_openssl::settings::OpensslSettings;
use crate::tls_openssl::translation::calls_view;
use crate::tls_openssl::translation::translation;
use crate::tls_openssl::translation::EngineCall;
use crate::tls_openssl::translation::EngineCallView;
use vstd::prelude::*;

verus! {

/// How far the configuring of one context has come.
pub struct Configuration {
    calls: Vec<EngineCall>,
    accepted: usize,
    refused: bool,
}

impl Configuration {
    /// No more calls are counted as accepted than there are.
    #[verifier::type_invariant]
    spec fn within(&self) -> bool {
        self.accepted <= self.calls@.len()
    }

    /// The calls to be made, in their order.
    pub closed spec fn calls(&self) -> Seq<EngineCallView> {
        calls_view(self.calls@)
    }

    /// The number of calls that the engine has accepted: they are the first of the calls.
    pub closed spec fn accepted(&self) -> nat {
        self.accepted as nat
    }

    /// Whether the engine has refused a call.
    pub closed spec fn refused(&self) -> bool {
        self.refused
    }

    /// The call that is to be made next: the one behind the calls accepted, unless a call
    /// was refused or all calls are made.
    pub open spec fn pending(&self) -> Option<EngineCallView> {
        if !self.refused() && self.accepted() < self.calls().len() {
            Some(self.calls()[self.accepted() as int])
        } else {
            None
        }
    }

    /// Whether the context is configured: every call was accepted.
    pub open spec fn complete(&self) -> bool {
        !self.refused() && self.accepted() == self.calls().len()
    }

    /// Begins the configuring of a fresh context for a profile: no call is made yet.
    pub fn begin(settings: &OpensslSettings) -> (configuration: Self)
        ensures
            configuration.calls() == translation(settings@),
            configuration.accepted() == 0,
            !configuration.refused(),
    {
        Configuration { calls: settings.engine_calls(), accepted: 0, refused: false }
    }

    /// Tells the call that is to be made next, if there is one.
    pub fn next_call(&self) -> (call: Option<&EngineCall>)
        ensures
            match call {
                Some(c) => self.pending() == Some(c@),
                None => self.pending() is None,
            },
    {
        proof {
            use_type_invariant(self);
        }
        if !self.refused && self.accepted < self.calls.len() {
            Some(&self.calls[self.accepted])
        } else {
            None
        }
    }

    /// Takes note of what the engine said to the pending call. Acceptance makes the next
    /// call pending; a refusal ends the work, for good. Without a pending call nothing is
    /// noted.
    pub fn report(&mut self, accepted: bool)
        ensures
            final(self).calls() == old(self).calls(),
            old(self).pending() is Some && accepted ==> final(self).accepted() == old(
                self,
            ).accepted() + 1 && !final(self).refused(),
            old(self).pending() is Some && !accepted ==> final(self).accepted() == old(
                self,
            ).accepted() && final(self).refused(),
            old(self).pending() is None ==> final(self).accepted() == old(self).accepted()
                && final(self).refused() == old(self).refused(),
    {
        proof {
            use_type_invariant(&*self);
        }
        if !self.refused && self.accepted < self.calls.len() {
            if accepted {
                self.accepted = self.accepted + 1;
            } else {
                self.refused = true;
            }
        }
    }

    /// Tells whether the context is configured.
    pub fn is_complete(&self) -> (b: bool)
        ensures
            b == self.complete(),
    {
        !self.refused && self.accepted == self.calls.len()
    }

    /// Tells whether the engine has refused a call.
    pub fn was_refused(&self) -> (b: bool)
        ensures
            b == self.refused(),
    {
        self.refused
    }
}

/// After a refusal no call is pending, whatever is reported from then on: the work is not
/// taken up again.
pub proof fn refusal_is_final(configuration: Configuration)
    requires
        configuration.refused(),
    ensures
        configuration.pending() is None,
        !configuration.complete(),
{
}

/// A context is configured exactly when no call is pending and none was refused.
pub proof fn complete_means_all_accepted(configuration: Configuration)
    requires
        configuration.accepted() <= configuration.calls().len(),
    ensures
        configuration.complete() <==> (configuration.pending() is None
            && !configuration.refused()),
{
}

} // verus!
