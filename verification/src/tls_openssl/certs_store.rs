use crate::tls::certs_store::CertsStore;
use crate::tls_openssl::native::add_certificate;
use crate::tls_openssl::native::certificate_from_der;
use crate::tls_openssl::native::finish_store;
use crate::tls_openssl::native::kept;
use crate::tls_openssl::native::loaded;
use crate::tls_openssl::native::new_store_builder;
use openssl::error::ErrorStack;
use openssl::x509::store::X509Store;
use vstd::prelude::*;

verus! {

/// A trust store in the engine's own form.
pub struct OpensslCertsStore {
    store: X509Store,
}

impl View for OpensslCertsStore {
    type V = Set<Seq<u8>>;

    /// The certificates that the engine's store holds, each by the DER form that it was read
    /// from.
    closed spec fn view(&self) -> Set<Seq<u8>> {
        kept(self.store)
    }
}

impl OpensslCertsStore {
    /// The engine's own store, which this one holds.
    pub closed spec fn native(&self) -> X509Store {
        self.store
    }

    /// Makes the engine's store from the certificates of `store`, in order.
    ///
    /// Every certificate is read and added by the engine, which may refuse any of them; the
    /// first refusal ends the work, and no store is handed out. A store that is handed out
    /// holds every certificate of `store`, and no other.
    pub fn new(store: CertsStore) -> (r: Result<Self, ErrorStack>)
        ensures
            r matches Ok(native) ==> native@ == store@.to_set(),
    {
        let mut builder = match new_store_builder() {
            Ok(builder) => builder,
            Err(e) => {
                return Err(e);
            },
        };
        let certs = store.certs();
        let mut i: usize = 0;
        assert(store@.take(0).to_set() =~= Set::<Seq<u8>>::empty());
        while i < certs.len()
            invariant
                i <= certs.len(),
                certs@.len() == store@.len(),
                forall|k: int| 0 <= k < certs@.len() ==> certs@[k]@ == store@[k],
                loaded(builder) == store@.take(i as int).to_set(),
            decreases certs.len() - i,
        {
            let cert = match certificate_from_der(certs[i].as_slice()) {
                Ok(cert) => cert,
                Err(e) => {
                    return Err(e);
                },
            };
            match add_certificate(&mut builder, cert) {
                Ok(()) => {},
                Err(e) => {
                    return Err(e);
                },
            }
            proof {
                let before = store@.take(i as int);
                let after = store@.take(i + 1);
                assert(after == before.push(store@[i as int]));
                assert(after.to_set() =~= before.to_set().insert(store@[i as int])) by {
                    assert forall|der: Seq<u8>| after.contains(der) <==> before.contains(der)
                        || der == store@[i as int] by {
                        if before.contains(der) {
                            let k = choose|k: int| 0 <= k < before.len() && before[k] == der;
                            assert(after[k] == der);
                        }
                        if der == store@[i as int] {
                            assert(after[i as int] == der);
                        }
                    }
                }
            }
            i += 1;
        }
        assert(store@.take(i as int) == store@);
        Ok(OpensslCertsStore { store: finish_store(builder) })
    }

    /// Takes over a store of the engine as it stands.
    pub fn from_native(store: X509Store) -> (native: Self)
        ensures
            native.native() == store,
            native@ == kept(store),
    {
        OpensslCertsStore { store }
    }

    /// The engine's store: the one that this store holds, not a copy of it.
    pub fn as_native(&self) -> (store: &X509Store)
        ensures
            *store == self.native(),
            kept(*store) == self@,
    {
        &self.store
    }
}

} // verus!
