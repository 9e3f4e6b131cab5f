use vstd::prelude::*;
use std::sync::{Arc, RwLock};
use crate::error::OverlayError;
use crate::geometry::Rect;

verus! {

/// `std::sync::RwLock`, held opaque: only the wrappers below look inside.
#[verifier::external_type_specification]
#[verifier::external_body]
#[verifier::reject_recursive_types(T)]
pub struct ExRwLock<T: ?Sized>(RwLock<T>);

/// Relies on `RwLock::new`: wraps the list, unlocked.
#[verifier::external_body]
fn new_lock(rects: Vec<Rect>) -> (r: RwLock<Vec<Rect>>) {
    RwLock::new(rects)
}

/// Relies on `RwLock::read`: takes the shared lock and clones the list under
/// it; `None` only when the lock is poisoned. What the list holds is up to
/// the producer, so nothing is said of it.
#[verifier::external_body]
fn read_clone(lock: &RwLock<Vec<Rect>>) -> (r: Option<Vec<Rect>>) {
    match lock.read() {
        Ok(guard) => Some(guard.clone()),
        Err(_) => None,
    }
}

/// Relies on `RwLock::write`: takes the exclusive lock and replaces the list
/// under it; `false` only when the lock is poisoned.
#[verifier::external_body]
fn write_replace(lock: &RwLock<Vec<Rect>>, rects: Vec<Rect>) -> (written: bool) {
    match lock.write() {
        Ok(mut guard) => {
            *guard = rects;
            true
        },
        Err(_) => false,
    }
}

/// The rectangle list shared by one producer and the renderer. Clones share
/// the same list. Every access takes the lock, so a reader sees a write
/// whole or not at all, and a poisoned lock is reported, never ignored.
#[derive(Clone, Debug)]
pub struct SharedRects {
    inner: Arc<RwLock<Vec<Rect>>>,
}

impl SharedRects {
    /// A shared buffer that starts out holding `rects`.
    pub fn new(rects: Vec<Rect>) -> (r: SharedRects) {
        SharedRects { inner: Arc::new(new_lock(rects)) }
    }

    /// A copy of the current list, taken under the shared lock; the lock is
    /// released before this returns, so drawing never blocks the producer.
    pub fn snapshot(&self) -> (r: Result<Vec<Rect>, OverlayError>)
        ensures
            r is Err ==> r == Err::<Vec<Rect>, OverlayError>(OverlayError::LockPoisoned),
    {
        match read_clone(&self.inner) {
            Some(rects) => Ok(rects),
            None => Err(OverlayError::LockPoisoned),
        }
    }

    /// Replaces the whole list under the exclusive lock.
    pub fn replace(&self, rects: Vec<Rect>) -> (r: Result<(), OverlayError>)
        ensures
            r is Err ==> r == Err::<(), OverlayError>(OverlayError::LockPoisoned),
    {
        if write_replace(&self.inner, rects) {
            Ok(())
        } else {
            Err(OverlayError::LockPoisoned)
        }
    }
}

} // verus!
