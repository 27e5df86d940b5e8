//! Frame-scoped memoisation.
//!
//! A [`MaraCache`] holds derived data that is expensive to recompute
//! and cheap to keep, and drops whatever went untouched for a frame.
//! Mara owns the eviction contract; the caller owns the keying and the
//! stored values.
//!
//! Implement [`SweptCache`] for the cache type. [`SweptCache::sweep`] is
//! called once per frame, before the first access of that frame, and
//! must drop entries that were not used in the previous frame; the
//! usual shape is a generation counter compared against a stamp on
//! each entry.

use std::sync::{Arc, Mutex, MutexGuard};
use vstd::prelude::*;

verus! {

#[verifier::external_type_specification]
#[verifier::external_body]
#[verifier::reject_recursive_types(T)]
pub struct ExMutex<T: ?Sized>(Mutex<T>);

#[verifier::external_type_specification]
#[verifier::external_body]
#[verifier::reject_recursive_types(T)]
pub struct ExMutexGuard<'a, T: ?Sized + 'a>(MutexGuard<'a, T>);

/// A cache that evicts on a frame boundary.
pub trait SweptCache: Default + Send + Sync + 'static {
    /// Drop entries unused since the last call. Called once per frame.
    fn sweep(&mut self);
}

/// Shared handle to a [`SweptCache`]. Cloning shares the same storage,
/// which is how the cache survives between frames.
#[verifier::reject_recursive_types(T)]
pub struct MaraCache<T: SweptCache> {
    inner: Arc<Mutex<T>>,
}

/// `std::sync::Mutex::new`: a fresh, unlocked lock around `value`.
/// Nothing is claimed of the result, whose contents Verus cannot see.
#[verifier::external_body]
fn new_lock<T>(value: T) -> Mutex<T> {
    Mutex::new(value)
}

/// `std::sync::Mutex::try_lock`, reading both of its errors (the lock
/// is held elsewhere, or was poisoned) as `None`. `try_lock` never
/// blocks, so a lock this thread already holds gives `None` instead of
/// a deadlock or panic. Which outcome comes depends on what other
/// holders do, so nothing is claimed of the result.
#[verifier::external_body]
fn acquire<T>(lock: &Mutex<T>) -> Option<MutexGuard<'_, T>> {
    lock.try_lock().ok()
}

/// `DerefMut` of a `std::sync::MutexGuard`: the value the guard holds
/// locked. Nothing is claimed of it.
#[verifier::external_body]
fn locked_value<'g, 'a, T>(guard: &'g mut MutexGuard<'a, T>) -> &'g mut T {
    &mut **guard
}

/// `Clone` of `std::sync::Arc`: a second handle to the same allocation.
/// As Verus sees an `Arc` as the value it points to, the new handle
/// equals the one it was cloned from.
#[verifier::external_body]
fn share<T>(handle: &Arc<T>) -> (shared: Arc<T>)
    ensures
        shared == *handle,
{
    Arc::clone(handle)
}

/// Run `body` on the locked value and hand back what it returned.
fn run_locked<T, R, F: FnOnce(&mut T) -> R>(value: &mut T, body: F) -> (out: R)
    requires
        forall|v: &mut T| body.requires((v,)),
    ensures
        exists|v: &mut T| #[trigger] body.ensures((v,), out),
{
    body(value)
}

impl<T: SweptCache> MaraCache<T> {
    /// A cache holding `T::default()`.
    pub fn new() -> Self {
        MaraCache { inner: Arc::new(new_lock(T::default())) }
    }

    /// Borrow the cache contents without waiting. `None` when the
    /// contents are held right now (by another handle, or by a guard or
    /// `with` body of this thread) or a previous holder panicked while
    /// holding them; callers recompute then, since a cache miss is always
    /// a valid outcome.
    pub fn lock(&self) -> Option<MutexGuard<'_, T>> {
        acquire(&self.inner)
    }

    /// Run `body` against the contents; `None` (and `body` not run) when
    /// the contents are busy or the lock was poisoned, a miss like any
    /// other. What comes back is what `body` returned.
    pub fn with<R, F: FnOnce(&mut T) -> R>(&self, body: F) -> (r: Option<R>)
        requires
            forall|value: &mut T| body.requires((value,)),
        ensures
            r is Some ==> exists|value: &mut T| #[trigger] body.ensures((value,), r->0),
    {
        match self.lock() {
            Some(mut guard) => {
                let value = locked_value(&mut guard);
                let out = run_locked(value, body);
                let res = Some(out);
                proof {
                    let v = choose|v: &mut T| #[trigger] body.ensures((v,), out);
                    assert(res->0 == out);
                    assert(body.ensures((v,), res->0));
                }
                res
            },
            None => None,
        }
    }

    /// The frame boundary: sweep the contents once. A busy or poisoned
    /// lock skips the sweep.
    pub fn sweep(&self) {
        if let Some(mut guard) = self.lock() {
            let value = locked_value(&mut guard);
            value.sweep();
        }
    }
}

impl<T: SweptCache> Clone for MaraCache<T> {
    /// Another handle to the same store.
    fn clone(&self) -> (c: Self)
        ensures
            c == *self,
    {
        MaraCache { inner: share(&self.inner) }
    }
}

impl<T: SweptCache> Default for MaraCache<T> {
    fn default() -> Self {
        MaraCache::new()
    }
}

} // verus!
