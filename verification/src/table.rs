//! The table of open streams, a `dashmap` map from stream id to the sender
//! that feeds the stream its data. The table is owned by one session core
//! and reached only through it, changed only through `&mut` access, so
//! what it holds is a fixed map between calls.

use vstd::prelude::*;
use bytes::Bytes;
use dashmap::DashMap;
use flume::{Receiver, Sender};
use crate::channel::feeds;

verus! {

/// A concurrent hash map of the `dashmap` crate.
#[verifier::external_type_specification]
#[verifier::external_body]
#[verifier::reject_recursive_types(K)]
#[verifier::reject_recursive_types(V)]
#[verifier::reject_recursive_types(S)]
pub struct ExDashMap<K, V, S>(DashMap<K, V, S>);

/// The entries of the table: each id with the sender it holds.
pub uninterp spec fn table_senders(m: DashMap<u32, Sender<Bytes>>) -> Map<u32, Sender<Bytes>>;

/// The ids that have an entry in the table.
pub open spec fn table_keys(m: DashMap<u32, Sender<Bytes>>) -> Set<u32> {
    table_senders(m).dom()
}

/// Calls `DashMap::new`. Trusted: the table is empty.
#[verifier::external_body]
pub(crate) fn table_new() -> (m: DashMap<u32, Sender<Bytes>>)
    ensures
        table_senders(m).dom() == Set::<u32>::empty(),
{
    DashMap::new()
}

/// Calls `DashMap::contains_key`. Trusted: whether the id has an entry.
#[verifier::external_body]
pub(crate) fn table_contains(m: &DashMap<u32, Sender<Bytes>>, id: u32) -> (r: bool)
    ensures
        r == table_keys(*m).contains(id),
{
    m.contains_key(&id)
}

/// Calls `DashMap::insert`. Trusted: the id holds `tx` afterwards and no
/// other entry changes; the previous value comes back exactly when the id
/// had an entry before.
#[verifier::external_body]
pub(crate) fn table_insert(m: &mut DashMap<u32, Sender<Bytes>>, id: u32, tx: Sender<Bytes>) -> (r: Option<Sender<Bytes>>)
    ensures
        table_senders(*final(m)) == table_senders(*old(m)).insert(id, tx),
        r is Some <==> table_keys(*old(m)).contains(id),
{
    m.insert(id, tx)
}

/// Calls `DashMap::remove` and keeps the value of the removed pair.
/// Trusted: the id has no entry afterwards and no other entry changes; a
/// value comes back exactly when the id had an entry before.
#[verifier::external_body]
pub(crate) fn table_remove(m: &mut DashMap<u32, Sender<Bytes>>, id: u32) -> (r: Option<Sender<Bytes>>)
    ensures
        table_senders(*final(m)) == table_senders(*old(m)).remove(id),
        r is Some <==> table_keys(*old(m)).contains(id),
{
    m.remove(&id).map(|(_, tx)| tx)
}

/// Calls `DashMap::get` and clones the sender the entry holds (the guard
/// is released before returning). Trusted: a sender comes back exactly
/// when the id has an entry, and, being a clone, it sends into the same
/// channel as the sender the entry holds.
#[verifier::external_body]
pub(crate) fn table_get(m: &DashMap<u32, Sender<Bytes>>, id: u32) -> (r: Option<Sender<Bytes>>)
    ensures
        r is Some <==> table_keys(*m).contains(id),
        r matches Some(tx) ==> forall|rx: Receiver<Bytes>|
            #[trigger] feeds(tx, rx) == feeds(table_senders(*m)[id], rx),
{
    m.get(&id).map(|entry| entry.value().clone())
}

} // verus!
