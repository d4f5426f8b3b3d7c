use vstd::prelude::*;

use std::sync::{Arc, RwLock, RwLockReadGuard, RwLockWriteGuard};

use dashmap::DashMap;

use crate::session::Session;

verus! {

#[verifier::external_type_specification]
#[verifier::external_body]
#[verifier::reject_recursive_types(T)]
pub struct ExRwLock<T: ?Sized>(RwLock<T>);

#[verifier::external_type_specification]
#[verifier::external_body]
#[verifier::reject_recursive_types(T)]
pub struct ExRwLockReadGuard<'a, T: ?Sized>(RwLockReadGuard<'a, T>);

#[verifier::external_type_specification]
#[verifier::external_body]
#[verifier::reject_recursive_types(T)]
pub struct ExRwLockWriteGuard<'a, T: ?Sized + 'a>(RwLockWriteGuard<'a, T>);

#[verifier::external_type_specification]
#[verifier::external_body]
#[verifier::reject_recursive_types(K)]
#[verifier::reject_recursive_types(V)]
#[verifier::reject_recursive_types(S)]
pub struct ExDashMap<K, V, S>(DashMap<K, V, S>);

/// A shared handle on one session: many readers or one writer at a time.
/// It stays usable after the session is removed from the registry.
pub type SessionHandle = Arc<RwLock<Session>>;

/// The map from session id to handle that the registry keeps.
pub type SessionTable = DashMap<u128, SessionHandle>;

/// The ids that a table holds.
pub uninterp spec fn table_ids(m: SessionTable) -> Set<u128>;

/// Relies on `RwLock::new`: a fresh lock, unlocked and unpoisoned, that owns
/// its argument.
pub assume_specification<T>[ RwLock::<T>::new ](t: T) -> RwLock<T>;

/// Relies on `RwLock::read`: waits until no writer holds the lock; `None`
/// when a writer panicked while holding it (the lock is poisoned).
#[verifier::external_body]
pub(crate) fn lock_read(h: &SessionHandle) -> (r: Option<RwLockReadGuard<'_, Session>>) {
    h.read().ok()
}

/// Relies on `RwLock::write`: waits until nobody else holds the lock; `None`
/// when a writer panicked while holding it (the lock is poisoned).
#[verifier::external_body]
pub(crate) fn lock_write(h: &SessionHandle) -> (r: Option<RwLockWriteGuard<'_, Session>>) {
    h.write().ok()
}

/// Relies on `Deref` for `RwLockReadGuard`: the session under the lock.
#[verifier::external_body]
pub(crate) fn read_guarded<'a, 'b>(g: &'a RwLockReadGuard<'b, Session>) -> (r: &'a Session) {
    &**g
}

/// Relies on `DerefMut` for `RwLockWriteGuard`: the session under the lock,
/// borrowed exclusively.
#[verifier::external_body]
pub(crate) fn write_guarded<'a, 'b>(g: &'a mut RwLockWriteGuard<'b, Session>) -> (r: &'a mut Session) {
    &mut **g
}

/// Relies on `DashMap::new`: an empty table.
#[verifier::external_body]
pub(crate) fn table_new() -> (r: SessionTable)
    ensures
        table_ids(r) == Set::<u128>::empty(),
{
    DashMap::new()
}

/// Relies on `DashMap::insert`: afterwards `id` is held, with `h` as its
/// handle; the other ids are untouched. It takes one shard's lock, which does
/// not poison, and hashes a `u128`: nothing in it unwinds.
#[verifier::external_body]
pub(crate) fn table_insert(m: &mut SessionTable, id: u128, h: SessionHandle)
    ensures
        table_ids(*final(m)) == table_ids(*old(m)).insert(id),
    no_unwind
{
    m.insert(id, h);
}

/// Relies on `DashMap::remove`: detaches `id`, handing back its handle if it
/// was held; the other ids are untouched. As for `insert`, nothing in it
/// unwinds.
#[verifier::external_body]
pub(crate) fn table_remove(m: &mut SessionTable, id: u128) -> (r: Option<SessionHandle>)
    ensures
        table_ids(*final(m)) == table_ids(*old(m)).remove(id),
        r is Some == table_ids(*old(m)).contains(id),
    no_unwind
{
    m.remove(&id).map(|(_, h)| h)
}

/// Relies on `DashMap::get`: a clone of the handle held under `id`, if any.
#[verifier::external_body]
pub(crate) fn table_get(m: &SessionTable, id: u128) -> (r: Option<SessionHandle>)
    ensures
        r is Some == table_ids(*m).contains(id),
{
    m.get(&id).map(|e| Arc::clone(e.value()))
}

/// Relies on `DashMap::contains_key`.
#[verifier::external_body]
pub(crate) fn table_contains(m: &SessionTable, id: u128) -> (r: bool)
    ensures
        r == table_ids(*m).contains(id),
{
    m.contains_key(&id)
}

/// Relies on `DashMap::len`: the number of entries.
#[verifier::external_body]
pub(crate) fn table_len(m: &SessionTable) -> (r: usize)
    ensures
        r == table_ids(*m).len(),
{
    m.len()
}

/// Relies on `DashMap::iter`, which visits each entry once: the ids held, in
/// no particular order.
#[verifier::external_body]
pub(crate) fn table_ids_vec(m: &SessionTable) -> (r: Vec<u128>)
    ensures
        r@.to_set() == table_ids(*m),
        r@.no_duplicates(),
{
    m.iter().map(|e| *e.key()).collect()
}

} // verus!
