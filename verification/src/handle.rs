//! The process-wide application handle slot: empty before startup,
//! set exactly once during initialization, read many times after.
//!
//! The embedding application guards one slot with a lock and routes
//! event emission through the handle it holds; a caller that reads
//! `None` treats the application as not yet started and skips
//! emission rather than fail.

use vstd::prelude::*;
use vstd::string::StringExecFns;

verus! {

/// Failure of `set`: the slot already holds a handle, and swapping
/// the context mid-run is a programming error to surface loudly.
#[derive(Debug, PartialEq)]
pub enum HandleError {
    AlreadyInitialized,
}

impl Clone for HandleError {
    fn clone(&self) -> (r: Self)
        ensures
            r == *self,
    {
        HandleError::AlreadyInitialized
    }
}

impl HandleError {
    /// A human-readable description of the failure.
    pub fn message(&self) -> (r: String)
        ensures
            r@ == "Application handle already initialized"@,
    {
        String::from_str("Application handle already initialized")
    }
}

/// A single optional slot for the application handle.
pub struct AppHandleSlot<T> {
    slot: Option<T>,
}

impl<T> AppHandleSlot<T> {
    /// The handle the slot holds, if any.
    pub closed spec fn handle(&self) -> Option<T> {
        self.slot
    }

    /// What `set` answers on a slot in the given state: only an
    /// empty slot accepts a handle.
    pub open spec fn set_result(slot: Option<T>, h: T) -> Result<(), HandleError> {
        if slot is None {
            Ok(())
        } else {
            Err(HandleError::AlreadyInitialized)
        }
    }

    /// The slot after `set`: filled once, never swapped.
    pub open spec fn slot_after_set(slot: Option<T>, h: T) -> Option<T> {
        if slot is None {
            Some(h)
        } else {
            slot
        }
    }

    /// An empty slot, the state before initialization.
    pub fn new() -> (r: Self)
        ensures
            r.handle() is None,
    {
        AppHandleSlot { slot: None }
    }

    /// Stores the handle if the slot is still empty; a second call
    /// is rejected and the first handle stays authoritative.
    pub fn set(&mut self, h: T) -> (r: Result<(), HandleError>)
        ensures
            r == Self::set_result(old(self).handle(), h),
            final(self).handle() == Self::slot_after_set(old(self).handle(), h),
    {
        if self.slot.is_some() {
            Err(HandleError::AlreadyInitialized)
        } else {
            self.slot = Some(h);
            Ok(())
        }
    }

    /// Reads the handle; `None` means "not yet started".
    pub fn get(&self) -> (r: Option<&T>)
        ensures
            match r {
                Some(h) => self.handle() == Some(*h),
                None => self.handle() is None,
            },
    {
        self.slot.as_ref()
    }

    /// Whether initialization has happened.
    pub fn is_initialized(&self) -> (b: bool)
        ensures
            b == (self.handle() is Some),
    {
        self.slot.is_some()
    }
}

/// Law: setting an empty slot succeeds and fills it with that very
/// handle; any later set is answered with `AlreadyInitialized` and
/// leaves the first handle in place.
pub proof fn lemma_handle_set_once<T>(h1: T, h2: T)
    ensures
        AppHandleSlot::<T>::set_result(None, h1) == Ok::<(), HandleError>(()),
        AppHandleSlot::<T>::slot_after_set(None, h1) == Some(h1),
        AppHandleSlot::<T>::set_result(Some(h1), h2) == Err::<(), HandleError>(
            HandleError::AlreadyInitialized,
        ),
        AppHandleSlot::<T>::slot_after_set(Some(h1), h2) == Some(h1),
{
}

} // verus!
