//! The traits of the container's interface.

use vstd::prelude::*;
use crate::erase::Zeroize;
use crate::guard::{SecretGuard, SecretGuardMut};

verus! {

/// Marks a secret that may be duplicated inside a container.
///
/// A secret is not cloneable unless its type says so here: copies of
/// sensitive data should not come about by accident.
pub trait CloneableSecret: Clone + Zeroize {

}

/// Grants scoped access to a secret.
///
/// Both grants take the holder by exclusive borrow for as long as the guard
/// lives, so a mutable grant never coexists with any other grant.
pub trait ExposeSecret<S: Zeroize> {
    /// The secret that is held.
    spec fn secret(&self) -> S;

    /// Grants read access. The guard shows the secret as it is, and the secret
    /// stays as it is.
    fn expose_secret(&mut self) -> (guard: SecretGuard<'_, S>)
        ensures
            guard@ == old(self).secret(),
            final(self).secret() == old(self).secret(),
    ;

    /// Grants read and write access. The guard starts from the secret as it
    /// is; what the guard holds when it ends is the secret from then on.
    fn expose_secret_mut(&mut self) -> (guard: SecretGuardMut<'_, S>)
        ensures
            guard@ == old(self).secret(),
            final(self).secret() == *final(guard.data),
    ;
}

} // verus!
