//! The scoped grants through which a secret is read or changed.
//!
//! A guard borrows the secret from its container. While a guard lives, the
//! borrow rules keep the container from being touched: no second grant can be
//! made beside a mutable one, and no mutable one beside any other.

use vstd::prelude::*;
use crate::erase::Zeroize;

verus! {

/// A grant to read a secret.
pub struct SecretGuard<'a, S: Zeroize> {
    data: &'a S,
}

/// A grant to read and change a secret.
///
/// The borrow is a public field so that contracts can speak of the value that
/// it holds when the grant ends, `*final(guard.data)`.
pub struct SecretGuardMut<'a, S: Zeroize> {
    /// The exclusive borrow of the secret.
    pub data: &'a mut S,
}

impl<'a, S: Zeroize> View for SecretGuard<'a, S> {
    type V = S;

    /// The secret that the guard shows.
    closed spec fn view(&self) -> S {
        *self.data
    }
}

impl<'a, S: Zeroize> View for SecretGuardMut<'a, S> {
    type V = S;

    /// The secret as the guard holds it now.
    open spec fn view(&self) -> S {
        *self.data
    }
}

impl<'a, S: Zeroize> SecretGuard<'a, S> {
    /// Makes a guard that shows `data`.
    pub fn new(data: &'a S) -> (guard: Self)
        ensures
            guard@ == *data,
    {
        SecretGuard { data }
    }
}

impl<'a, S: Zeroize> SecretGuardMut<'a, S> {
    /// Makes a guard over `data`. What the guard holds when it ends is what
    /// `data` holds from then on.
    pub fn new(data: &'a mut S) -> (guard: Self)
        ensures
            guard@ == *old(data),
            *final(guard.data) == *final(data),
    {
        SecretGuardMut { data }
    }
}

impl<S: Zeroize> core::ops::Deref for SecretGuard<'_, S> {
    type Target = S;

    /// The secret, to read.
    fn deref(&self) -> (secret: &S)
        ensures
            *secret == self@,
    {
        self.data
    }
}

impl<S: Zeroize> core::ops::Deref for SecretGuardMut<'_, S> {
    type Target = S;

    /// The secret, to read.
    fn deref(&self) -> (secret: &S)
        ensures
            *secret == self@,
    {
        self.data
    }
}

impl<S: Zeroize> core::ops::DerefMut for SecretGuardMut<'_, S> {
    /// The secret, to change. The guard holds afterwards what was written
    /// through the returned borrow.
    fn deref_mut(&mut self) -> (secret: &mut S)
        ensures
            *secret == old(self)@,
            final(self)@ == *final(secret),
            *final(final(self).data) == *final(old(self).data),
    {
        self.data
    }
}

} // verus!
