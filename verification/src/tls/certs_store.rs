use std::sync::Arc;
use vstd::prelude::*;
use webpki_root_certs::TLS_SERVER_ROOT_CERTS;

verus! {

/// Where a store has its certificates from.
#[derive(Debug)]
enum Backing {
    /// A set that the store shares with others and never changes.
    Shared(Arc<Vec<Vec<u8>>>),
    /// A set of the store's own.
    Owned(Vec<Vec<u8>>),
}

/// A trust store: certificates in DER form, in order.
///
/// A store starts out on a set of certificates that it shares: copies of the store share
/// the set too, and none of them copies a certificate. Adding a certificate gives the
/// store a set of its own, which holds the shared certificates followed by the one added,
/// and leaves every other store as it was.
#[derive(Debug)]
pub struct CertsStore {
    backing: Backing,
}

/// The DER forms of certificates.
pub open spec fn ders(certs: Seq<Vec<u8>>) -> Seq<Seq<u8>> {
    Seq::new(certs.len(), |i: int| certs[i]@)
}

impl View for CertsStore {
    type V = Seq<Seq<u8>>;

    closed spec fn view(&self) -> Seq<Seq<u8>> {
        match self.backing {
            Backing::Shared(certs) => ders(certs@),
            Backing::Owned(certs) => ders(certs@),
        }
    }
}

/// The certificate at a place in `webpki_root_certs::TLS_SERVER_ROOT_CERTS`, the built-in
/// set of root certificates, in DER form; nothing at a place that the set does not have.
pub uninterp spec fn builtin_root(index: int) -> Option<Seq<u8>>;

/// Whether certificates are the built-in set of root certificates: each is the one that the
/// set has at its place, and the set has none behind them.
pub open spec fn is_builtin_set(certs: Seq<Seq<u8>>) -> bool {
    &&& builtin_root(certs.len() as int) is None
    &&& forall|i: int| 0 <= i < certs.len() ==> #[trigger] builtin_root(i) == Some(certs[i])
}

/// The built-in set is one set: certificates that are the built-in set are the same
/// certificates, whoever holds them.
pub proof fn builtin_set_is_unique(first: Seq<Seq<u8>>, second: Seq<Seq<u8>>)
    requires
        is_builtin_set(first),
        is_builtin_set(second),
    ensures
        first == second,
{
    if first.len() < second.len() {
        assert(builtin_root(first.len() as int) == Some(second[first.len() as int]));
    } else if second.len() < first.len() {
        assert(builtin_root(second.len() as int) == Some(first[second.len() as int]));
    } else {
        assert forall|i: int| 0 <= i < first.len() implies first[i] == second[i] by {
            assert(builtin_root(i) == Some(first[i]));
            assert(builtin_root(i) == Some(second[i]));
        }
        assert(first =~= second);
    }
}

/// Takes the length of `webpki_root_certs::TLS_SERVER_ROOT_CERTS`. Trusted: the set has a
/// certificate at every place before its length, and none at its length.
#[verifier::external_body]
fn builtin_root_count() -> (count: usize)
    ensures
        builtin_root(count as int) is None,
        forall|i: int| 0 <= i < count ==> (#[trigger] builtin_root(i)) is Some,
{
    TLS_SERVER_ROOT_CERTS.len()
}

/// Copies out the certificate at a place in `webpki_root_certs::TLS_SERVER_ROOT_CERTS`.
/// Trusted: the set is a constant, so that what stands at a place depends on the place
/// alone. Indexing panics at a place that the set does not have, which the precondition
/// rules out.
#[verifier::external_body]
fn builtin_root_at(index: usize) -> (der: Vec<u8>)
    requires
        builtin_root(index as int) is Some,
    ensures
        builtin_root(index as int) == Some(der@),
{
    TLS_SERVER_ROOT_CERTS[index].as_ref().to_vec()
}

/// Calls `Arc::clone`. Trusted: the copy points to the same set, of which nothing is copied.
#[verifier::external_body]
fn share_set(set: &Arc<Vec<Vec<u8>>>) -> (shared: Arc<Vec<Vec<u8>>>)
    ensures
        shared == *set,
{
    Arc::clone(set)
}

/// Copies certificates into a set of their own.
fn copy_certs(certs: &Vec<Vec<u8>>) -> (copy: Vec<Vec<u8>>)
    ensures
        ders(copy@) == ders(certs@),
{
    let mut copy: Vec<Vec<u8>> = Vec::new();
    let mut i: usize = 0;
    while i < certs.len()
        invariant
            i <= certs.len(),
            copy@.len() == i,
            forall|k: int| 0 <= k < i ==> copy@[k]@ == certs@[k]@,
        decreases certs.len() - i,
    {
        copy.push(certs[i].clone());
        i += 1;
    }
    assert(ders(copy@) =~= ders(certs@));
    copy
}

/// Tells whether two lists hold the same certificates in the same order.
fn same_certs(a: &[Vec<u8>], b: &[Vec<u8>]) -> (same: bool)
    ensures
        same == (ders(a@) == ders(b@)),
{
    if a.len() != b.len() {
        assert(ders(a@).len() != ders(b@).len());
        return false;
    }
    let mut i: usize = 0;
    while i < a.len()
        invariant
            i <= a.len(),
            a@.len() == b@.len(),
            forall|k: int| 0 <= k < i ==> a@[k]@ == b@[k]@,
        decreases a.len() - i,
    {
        let x = &a[i];
        let y = &b[i];
        if x.len() != y.len() {
            assert(ders(a@)[i as int] != ders(b@)[i as int]);
            return false;
        }
        let mut j: usize = 0;
        while j < x.len()
            invariant
                j <= x.len(),
                i < a@.len() == b@.len(),
                x@ == a@[i as int]@,
                y@ == b@[i as int]@,
                x@.len() == y@.len(),
                forall|k: int| 0 <= k < j ==> x@[k] == y@[k],
            decreases x.len() - j,
        {
            if x[j] != y[j] {
                assert(ders(a@)[i as int] != ders(b@)[i as int]);
                return false;
            }
            j += 1;
        }
        assert(x@ =~= y@);
        i += 1;
    }
    assert(ders(a@) =~= ders(b@));
    true
}

impl Clone for CertsStore {
    /// A copy of the store. A shared set is shared with the copy, and no certificate is
    /// copied; a set of the store's own is copied for the copy.
    fn clone(&self) -> (copy: Self)
        ensures
            copy@ == self@,
            copy.is_owned() == self.is_owned(),
    {
        match &self.backing {
            Backing::Shared(certs) => CertsStore { backing: Backing::Shared(share_set(certs)) },
            Backing::Owned(certs) => CertsStore { backing: Backing::Owned(copy_certs(certs)) },
        }
    }
}

impl PartialEq for CertsStore {
    /// Stores are equal if they hold the same certificates in the same order, whether they
    /// share their set or have one of their own.
    fn eq(&self, other: &Self) -> (same: bool) {
        same_certs(self.certs(), other.certs())
    }
}

impl Eq for CertsStore {

}

impl vstd::std_specs::cmp::PartialEqSpecImpl for CertsStore {
    open spec fn obeys_eq_spec() -> bool {
        true
    }

    open spec fn eq_spec(&self, other: &Self) -> bool {
        self@ == other@
    }
}

impl CertsStore {
    /// Whether the store has a set of its own, and no longer shares one.
    pub closed spec fn is_owned(&self) -> bool {
        self.backing is Owned
    }

    /// A store on the built-in set of root certificates: it holds every certificate of the
    /// set, in the set's order, and shares them.
    pub fn load() -> (store: CertsStore)
        ensures
            is_builtin_set(store@),
            !store.is_owned(),
    {
        let count = builtin_root_count();
        let mut certs: Vec<Vec<u8>> = Vec::new();
        let mut i: usize = 0;
        while i < count
            invariant
                i <= count,
                certs@.len() == i,
                builtin_root(count as int) is None,
                forall|k: int| 0 <= k < count ==> (#[trigger] builtin_root(k)) is Some,
                forall|k: int| 0 <= k < i ==> #[trigger] builtin_root(k) == Some(certs@[k]@),
            decreases count - i,
        {
            certs.push(builtin_root_at(i));
            i += 1;
        }
        let store = CertsStore { backing: Backing::Shared(Arc::new(certs)) };
        proof {
            assert(store@.len() == count);
            assert forall|k: int| 0 <= k < store@.len() implies #[trigger] builtin_root(k) == Some(
                store@[k],
            ) by {
                assert(store@[k] == certs@[k]@);
            }
        }
        store
    }

    /// A store on the empty set.
    pub fn empty() -> (store: CertsStore)
        ensures
            store@ == Seq::<Seq<u8>>::empty(),
            !store.is_owned(),
    {
        let store = CertsStore { backing: Backing::Shared(Arc::new(Vec::new())) };
        assert(store@ =~= Seq::<Seq<u8>>::empty());
        store
    }

    /// Adds a certificate behind those that the store holds; the store then has a set of
    /// its own.
    pub fn add_cert(&mut self, cert: Vec<u8>)
        ensures
            final(self)@ == old(self)@.push(cert@),
            final(self).is_owned(),
    {
        match &mut self.backing {
            Backing::Shared(certs) => {
                let mut new_certs = copy_certs(&**certs);
                new_certs.push(cert);
                assert(ders(new_certs@) =~= old(self)@.push(cert@));
                self.backing = Backing::Owned(new_certs);
            },
            Backing::Owned(certs) => {
                certs.push(cert);
                assert(ders(certs@) =~= old(self)@.push(cert@));
            },
        }
    }

    /// The certificates of the store, in order.
    pub fn certs(&self) -> (certs: &[Vec<u8>])
        ensures
            ders(certs@) == self@,
    {
        match &self.backing {
            Backing::Shared(certs) => certs.as_slice(),
            Backing::Owned(certs) => certs.as_slice(),
        }
    }

    /// Tells whether the store has a set of its own.
    pub fn owns_its_certs(&self) -> (b: bool)
        ensures
            b == self.is_owned(),
    {
        match &self.backing {
            Backing::Shared(_) => false,
            Backing::Owned(_) => true,
        }
    }
}

} // verus!
