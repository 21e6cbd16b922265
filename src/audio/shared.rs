use std::sync::Arc;
use std::sync::Mutex;
use vstd::prelude::*;

use crate::audio::volume::Volume;

verus! {

/// std's mutual-exclusion lock, carried opaquely.
#[verifier::external_type_specification]
#[verifier::external_body]
#[verifier::reject_recursive_types(T)]
pub struct ExMutex<T: ?Sized>(Mutex<T>);

/// Relies on `Mutex::new`: it builds an unlocked mutex; nothing about the
/// result is used.
pub assume_specification<T>[ Mutex::<T>::new ](t: T) -> Mutex<T>;

/// Relies on `Mutex::try_lock`: it never blocks. When the lock is held
/// elsewhere (or poisoned) nothing is read and the result is `None`;
/// otherwise the result is a copy of the guarded volume. Which of the two
/// happens depends on the other threads, so nothing is promised about it.
#[verifier::external_body]
pub(crate) fn try_read_volume(shared: &Arc<Mutex<Volume>>) -> (r: Option<Volume>) {
    shared.try_lock().ok().map(|guard| *guard)
}

} // verus!
