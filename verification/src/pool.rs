use vstd::prelude::*;
use std::cell::RefCell;
use thread_local::ThreadLocal;
use crate::txn::Connection;

verus! {

/// `thread_local::ThreadLocal`, a value per thread. Nothing of its inside is
/// known here.
#[verifier::external_type_specification]
#[verifier::external_body]
#[verifier::reject_recursive_types(T)]
pub struct ExThreadLocal<T: Send>(ThreadLocal<T>);

/// `std::cell::RefCell`. Nothing of its inside is known here.
#[verifier::external_type_specification]
#[verifier::external_body]
#[verifier::reject_recursive_types(T)]
pub struct ExRefCell<T: ?Sized>(RefCell<T>);

/// `ThreadLocal::new`: a pool in which no thread has a slot yet.
#[verifier::external_body]
pub(crate) fn pool_new() -> (pool: ThreadLocal<RefCell<Option<Connection>>>) {
    ThreadLocal::new()
}

/// `ThreadLocal::get_or_default`: the calling thread's slot, made empty first
/// if the thread had none. Which slot that is depends on the calling thread,
/// so nothing is claimed of it.
#[verifier::external_body]
pub(crate) fn thread_slot(pool: &ThreadLocal<RefCell<Option<Connection>>>) -> (slot: &RefCell<
    Option<Connection>,
>) {
    pool.get_or_default()
}

/// `ThreadLocal::get`: the calling thread's slot, if the thread has one.
#[verifier::external_body]
pub(crate) fn existing_thread_slot(pool: &ThreadLocal<RefCell<Option<Connection>>>) -> (slot:
    Option<&RefCell<Option<Connection>>>) {
    pool.get()
}

/// `RefCell::take`: empties the slot and hands out what was in it. The slot
/// changes behind a shared reference, so nothing is claimed of the result.
#[verifier::external_body]
pub(crate) fn slot_take(slot: &RefCell<Option<Connection>>) -> (idle: Option<Connection>) {
    slot.take()
}

/// `RefCell::replace`: puts `connection` into the slot and hands out what it
/// replaces there.
#[verifier::external_body]
pub(crate) fn slot_replace(slot: &RefCell<Option<Connection>>, connection: Connection) -> (displaced:
    Option<Connection>) {
    slot.replace(Some(connection))
}

} // verus!
