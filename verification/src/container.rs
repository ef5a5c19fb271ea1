//! The container.

use vstd::prelude::*;
use crate::erase::Zeroize;
use crate::expose::{CloneableSecret, ExposeSecret};
use crate::guard::{SecretGuard, SecretGuardMut};
use crate::page::{next_state, PageState, Request};
use crate::protection::Protection;

verus! {

/// Holds one secret on the heap and the protection level of its page.
///
/// A container exists only between construction and destruction, and its page
/// is pinned for all of that time: its state is always `Locked` at some level.
/// The secret is reached through [`ExposeSecret`] alone. A grant sets the level
/// that it needs; the level is tightened again when the container is next
/// touched, which the borrow rules allow only once the guard is gone.
pub struct SecretBox<S: Zeroize> {
    inner_secret: Box<S>,
    protection: Protection,
}

impl<S: Zeroize> View for SecretBox<S> {
    type V = S;

    /// The secret that the container holds.
    closed spec fn view(&self) -> S {
        *self.inner_secret
    }
}

impl<S: Zeroize> SecretBox<S> {
    /// The protection level of the container's page.
    pub closed spec fn spec_protection(&self) -> Protection {
        self.protection
    }

    /// The state of the container's page: locked, at the container's level.
    pub open spec fn page_state(&self) -> PageState {
        PageState::Locked(self.protection())
    }

    /// The container that `new` makes of `boxed_secret`.
    pub closed spec fn sealed(boxed_secret: Box<S>) -> Self {
        SecretBox { inner_secret: boxed_secret, protection: Protection::NoAccess }
    }

    /// What `sealed` makes: a container around the boxed value, with no access.
    pub proof fn lemma_sealed(boxed_secret: Box<S>)
        ensures
            Self::sealed(boxed_secret)@ == *boxed_secret,
            Self::sealed(boxed_secret).protection() == Protection::NoAccess,
    {
    }

    /// Creates a container from a value that is on the heap already.
    ///
    /// The page is taken from `Fresh` through `Construct`: the container starts
    /// out locked, with no access.
    pub fn new(boxed_secret: Box<S>) -> (secret: Self)
        ensures
            secret == Self::sealed(boxed_secret),
            secret@ == *boxed_secret,
            secret.protection() == Protection::NoAccess,
            secret.page_state() == next_state(PageState::Fresh, Request::Construct),
    {
        SecretBox { inner_secret: boxed_secret, protection: Protection::NoAccess }
    }

    /// The protection level of the container's page.
    #[verifier::when_used_as_spec(spec_protection)]
    pub fn protection(&self) -> (level: Protection)
        ensures
            level == self.protection(),
    {
        self.protection
    }

    /// The state of the container's page, to put to [`crate::page::transition`]
    /// before a request is made of the container.
    pub fn state(&self) -> (state: PageState)
        ensures
            state == self.page_state(),
    {
        PageState::Locked(self.protection)
    }

    /// Withdraws all access: the page goes back to `NoAccess`. The secret is
    /// not changed.
    pub fn conceal(&mut self)
        ensures
            final(self)@ == old(self)@,
            final(self).page_state() == next_state(old(self).page_state(), Request::EndAccess),
            final(self).protection() == Protection::NoAccess,
    {
        self.protection = Protection::NoAccess;
    }

    /// Destroys the container, from whatever level it is at: erases the secret
    /// and hands the allocation back, zeroed, for the caller to unpin and then
    /// to free.
    pub fn destroy(self) -> (remains: Box<S>)
        ensures
            remains.is_zeroized(),
    {
        let mut inner = self.inner_secret;
        inner.zeroize();
        inner
    }
}

impl<S: Zeroize + Clone> SecretBox<S> {
    /// Creates a container from a copy of `data` and erases `data`.
    ///
    /// The value was made in ordinary memory and stays there until it is erased
    /// here: the window is kept short, not closed.
    pub fn from_temporary(data: &mut S) -> (secret: Self)
        ensures
            cloned(*old(data), secret@),
            secret.protection() == Protection::NoAccess,
            final(data).is_zeroized(),
    {
        let secret = Self::new(Box::new(data.clone()));
        data.zeroize();
        secret
    }

    /// Creates a container from the value that `ctr` constructs.
    ///
    /// The constructed value is copied to the heap and then erased, as in
    /// [`Self::from_temporary`]. Prefer [`Self::new`] or [`Self::new_with_mut`]
    /// where they can be used: they never hold the secret outside the
    /// container.
    pub fn new_with_ctr(ctr: impl FnOnce() -> S) -> (secret: Self)
        requires
            call_requires(ctr, ()),
        ensures
            exists|made: S| call_ensures(ctr, (), made) && cloned(made, secret@),
            secret.protection() == Protection::NoAccess,
    {
        let mut data = ctr();
        Self::from_temporary(&mut data)
    }

    /// Decides what [`Self::try_new_with_ctr`] returns for the outcome `made`
    /// of its constructor: a container around a copy of the value, the value
    /// itself being erased, or the constructor's error as it came.
    pub fn from_outcome<E>(made: Result<S, E>) -> (secret: Result<Self, E>)
        ensures
            match made {
                Ok(value) => secret matches Ok(sealed) && cloned(value, sealed@)
                    && sealed.protection() == Protection::NoAccess,
                Err(error) => secret matches Err(same) && same == error,
            },
    {
        match made {
            Ok(value) => {
                let mut data = value;
                Ok(Self::from_temporary(&mut data))
            },
            Err(error) => Err(error),
        }
    }

    /// Same as [`Self::new_with_ctr`], for a constructor that can fail.
    ///
    /// Where `ctr` fails, its error is returned as it is and no container
    /// comes about.
    pub fn try_new_with_ctr<E>(ctr: impl FnOnce() -> Result<S, E>) -> (secret: Result<Self, E>)
        requires
            call_requires(ctr, ()),
        ensures
            match secret {
                Ok(sealed) => exists|made: S|
                    call_ensures(ctr, (), Ok(made)) && cloned(made, sealed@)
                        && sealed.protection() == Protection::NoAccess,
                Err(error) => call_ensures(ctr, (), Err(error)),
            },
    {
        Self::from_outcome(ctr())
    }
}

impl<S: Zeroize + Default> SecretBox<S> {
    /// Creates a container whose secret `ctr` writes in place.
    ///
    /// The container is made around a default value first, and `ctr` is then
    /// given a mutable grant into it: the secret never exists outside the
    /// container. When `ctr` is done, all access is withdrawn.
    pub fn new_with_mut(ctr: impl FnOnce(&mut S)) -> (secret: Self)
        requires
            forall|slot: &mut S| call_ensures(S::default, (), *slot) ==> call_requires(ctr, (slot,)),
        ensures
            exists|slot: &mut S|
                call_ensures(S::default, (), *slot) && call_ensures(ctr, (slot,), ())
                    && secret@ == *final(slot),
            secret.protection() == Protection::NoAccess,
    {
        let mut secret = Self::default();
        {
            let mut guard = secret.expose_secret_mut();
            ctr(&mut *guard);
        }
        secret.conceal();
        secret
    }
}

impl<S: Zeroize> From<Box<S>> for SecretBox<S> {
    /// The same as [`SecretBox::new`].
    fn from(source: Box<S>) -> (secret: Self)
        ensures
            secret@ == *source,
            secret.protection() == Protection::NoAccess,
    {
        Self::new(source)
    }
}

impl<S: Zeroize> vstd::std_specs::convert::FromSpecImpl<Box<S>> for SecretBox<S> {
    open spec fn obeys_from_spec() -> bool {
        true
    }

    open spec fn from_spec(source: Box<S>) -> Self {
        Self::sealed(source)
    }
}

impl<S: Zeroize + Default> Default for SecretBox<S> {
    /// A container around the default value of `S`.
    fn default() -> (secret: Self)
        ensures
            call_ensures(S::default, (), secret@),
            secret.protection() == Protection::NoAccess,
    {
        let inner_secret = Box::<S>::default();
        SecretBox::new(inner_secret)
    }
}

impl<S: CloneableSecret> Clone for SecretBox<S> {
    /// A new container around a copy of the secret, locked with no access.
    /// The two containers share nothing.
    fn clone(&self) -> (copy: Self)
        ensures
            cloned(self@, copy@),
            copy.protection() == Protection::NoAccess,
    {
        SecretBox::new(self.inner_secret.clone())
    }
}

impl<S: Zeroize> Zeroize for SecretBox<S> {
    /// A container is zeroized when its secret is.
    open spec fn is_zeroized(&self) -> bool {
        self@.is_zeroized()
    }

    /// Erases the secret in place. The container lives on, with write access,
    /// which erasing needs.
    fn zeroize(&mut self)
        ensures
            final(self).page_state() == next_state(old(self).page_state(), Request::Write),
            final(self).protection() == Protection::ReadWrite,
    {
        self.protection = Protection::ReadWrite;
        self.inner_secret.zeroize();
    }
}

impl<S: Zeroize> ExposeSecret<S> for SecretBox<S> {
    open spec fn secret(&self) -> S {
        self@
    }

    /// Grants read access and sets the page to `ReadOnly`, whatever it was.
    fn expose_secret(&mut self) -> (guard: SecretGuard<'_, S>)
        ensures
            final(self).page_state() == next_state(old(self).page_state(), Request::Read),
            final(self).protection() == Protection::ReadOnly,
    {
        self.protection = Protection::ReadOnly;
        SecretGuard::new(&*self.inner_secret)
    }

    /// Grants read and write access and sets the page to `ReadWrite`.
    fn expose_secret_mut(&mut self) -> (guard: SecretGuardMut<'_, S>)
        ensures
            final(self).page_state() == next_state(old(self).page_state(), Request::Write),
            final(self).protection() == Protection::ReadWrite,
    {
        self.protection = Protection::ReadWrite;
        SecretGuardMut::new(&mut *self.inner_secret)
    }
}

} // verus!
