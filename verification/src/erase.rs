//! Erasing a value: the capability that every secret must have.

use vstd::prelude::*;

verus! {

/// A value that can overwrite itself with zeros.
///
/// The secret that a container holds is erased through this trait before its
/// memory is given up. What counts as erased is the type's to say, in
/// `is_zeroized`; for the byte buffers below it means that every byte is zero.
/// The byte buffers are erased by the `zeroize` crate, whose writes the
/// compiler may not remove.
pub trait Zeroize {
    /// Whether the value holds nothing but zeros.
    spec fn is_zeroized(&self) -> bool;

    /// Overwrites the value with zeros, in a way that the compiler does not
    /// optimise away.
    fn zeroize(&mut self)
        ensures
            final(self).is_zeroized(),
    ;
}

/// Whether every byte of `bytes` is zero.
pub open spec fn all_zero(bytes: Seq<u8>) -> bool {
    forall|i: int| 0 <= i < bytes.len() ==> bytes[i] == 0u8
}

/// Calls `zeroize::Zeroize::zeroize` on a vector of bytes.
///
/// That function overwrites the vector's elements and its spare capacity with
/// zeros and then clears it, so the vector is empty afterwards. This is taken
/// from the `zeroize` crate's source and not proved here.
#[verifier::external_body]
fn zeroize_byte_vec(bytes: &mut Vec<u8>)
    ensures
        final(bytes)@ == Seq::<u8>::empty(),
{
    zeroize::Zeroize::zeroize(bytes)
}

/// Calls `zeroize::Zeroize::zeroize` on an array of bytes.
///
/// That function writes a zero over each element in turn, so every byte of the
/// array is zero afterwards. This is taken from the `zeroize` crate's source
/// and not proved here.
#[verifier::external_body]
fn zeroize_byte_array<const N: usize>(bytes: &mut [u8; N])
    ensures
        forall|i: int| 0 <= i < N ==> final(bytes)@[i] == 0u8,
{
    zeroize::Zeroize::zeroize(bytes)
}

impl Zeroize for Vec<u8> {
    open spec fn is_zeroized(&self) -> bool {
        all_zero(self@)
    }

    /// Erases the bytes and leaves the vector empty.
    fn zeroize(&mut self)
        ensures
            final(self)@.len() == 0,
    {
        zeroize_byte_vec(self);
    }
}

impl<const N: usize> Zeroize for [u8; N] {
    open spec fn is_zeroized(&self) -> bool {
        all_zero(self@)
    }

    /// Sets each of the `N` bytes to zero.
    fn zeroize(&mut self) {
        zeroize_byte_array(self);
    }
}

} // verus!
