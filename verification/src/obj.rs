//! Storage for an eBPF object that is being opened.
use core::mem::MaybeUninit;
use core::ops::{Deref, DerefMut};
use vstd::prelude::*;
use vstd::std_specs::maybe_uninit::MaybeUninitAdditionalSpecFns;

verus! {

/// The place that an opened eBPF object of type `T` is written to.
///
/// A skeleton builder opens its object into storage that outlives the
/// skeleton; this type owns that storage, which starts out uninitialised, and
/// hands it out by dereference.
pub struct OpenObject<T> {
    inner: MaybeUninit<T>,
}

impl<T> OpenObject<T> {
    /// The storage that the object is written to.
    pub closed spec fn storage(&self) -> MaybeUninit<T> {
        self.inner
    }

    /// Creates storage that holds no object yet.
    pub fn new() -> (r: Self)
        ensures
            r.storage().as_option() is None,
    {
        Self { inner: MaybeUninit::uninit() }
    }
}

impl<T> Deref for OpenObject<T> {
    type Target = MaybeUninit<T>;

    fn deref(&self) -> (r: &MaybeUninit<T>)
        ensures
            *r == self.storage(),
    {
        &self.inner
    }
}

impl<T> DerefMut for OpenObject<T> {
    fn deref_mut(&mut self) -> (r: &mut MaybeUninit<T>)
        ensures
            *r == old(self).storage(),
            final(self).storage() == *final(r),
    {
        &mut self.inner
    }
}

} // verus!
