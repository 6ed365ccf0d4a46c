//! Construction of a rustls root certificate store from DER-encoded
//! certificates, tolerating — and skipping — every entry that cannot be
//! parsed, since native stores often hold ancient or syntactically invalid
//! certificates. The store is structurally complete but functionally inert
//! here: the accept-all policy never consults it.

use vstd::prelude::*;

verus! {

/// rustls's collection of root trust anchors, held opaquely: this library
/// only ever counts what the store holds.
#[verifier::external_type_specification]
#[verifier::external_body]
pub struct ExRootCertStore(rustls::RootCertStore);

/// How many trust anchors a store holds.
pub uninterp spec fn anchor_count(store: rustls::RootCertStore) -> nat;

/// Whether rustls can derive a trust anchor from this DER-encoded
/// certificate — a function of the bytes alone.
pub uninterp spec fn parses_as_anchor(der: Seq<u8>) -> bool;

/// Relies on rustls::RootCertStore::empty: a new store holds no anchors.
#[verifier::external_body]
fn store_empty() -> (store: rustls::RootCertStore)
    ensures
        anchor_count(store) == 0,
{
    rustls::RootCertStore::empty()
}

/// Relies on rustls::RootCertStore::add: it derives a trust anchor from
/// the DER bytes and appends it, or fails on a certificate it cannot parse
/// and leaves the store unchanged.
#[verifier::external_body]
fn store_add(store: &mut rustls::RootCertStore, der: &Vec<u8>) -> (added: bool)
    ensures
        added == parses_as_anchor(der@),
        added ==> anchor_count(*final(store)) == anchor_count(*old(store)) + 1,
        !added ==> anchor_count(*final(store)) == anchor_count(*old(store)),
{
    store.add(&rustls::Certificate(der.clone())).is_ok()
}

/// How many of the first n entries parse as trust anchors.
pub open spec fn parsable_count(ders: Seq<Vec<u8>>, n: int) -> nat
    decreases n,
{
    if n <= 0 {
        0
    } else {
        parsable_count(ders, n - 1) + if parses_as_anchor(ders[n - 1]@) {
            1nat
        } else {
            0nat
        }
    }
}

/// Builds a root store from DER-encoded certificates: every entry that
/// parses becomes an anchor, every entry that does not is skipped, and
/// startup never fails on a malformed entry.
pub fn build_root_store(ders: &Vec<Vec<u8>>) -> (store: rustls::RootCertStore)
    ensures
        anchor_count(store) == parsable_count(ders@, ders@.len() as int),
{
    let mut store = store_empty();
    let mut i: usize = 0;
    while i < ders.len()
        invariant
            i <= ders@.len(),
            anchor_count(store) == parsable_count(ders@, i as int),
        decreases ders@.len() - i,
    {
        store_add(&mut store, &ders[i]);
        i = i + 1;
    }
    store
}

} // verus!
