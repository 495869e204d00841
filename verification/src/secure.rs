//! Trusted boundary to the zeroize crate. The buffer's backing storage is
//! a byte vector held inside a [`zeroize::Zeroizing`] wrapper, whose
//! `Drop` impl overwrites every byte before the memory is released — on
//! every exit path, including failed multi-step constructions.

use vstd::prelude::*;

verus! {

/// Backing storage that is wiped on drop. Opaque to the verifier; its
/// contents are given by [`secure_contents`], which the accessors below
/// relate to the wrapped vector.
#[verifier::external_body]
pub struct SecureBytes {
    inner: zeroize::Zeroizing<Vec<u8>>,
}

/// The bytes a [`SecureBytes`] currently holds.
pub uninterp spec fn secure_contents(b: SecureBytes) -> Seq<u8>;

impl SecureBytes {
    /// Relies on zeroize::Zeroizing::new: moves the vector inside the
    /// wrapper unchanged; the wrapper zeroizes it when it is dropped.
    #[verifier::external_body]
    pub(crate) fn wrap(value: Vec<u8>) -> (r: SecureBytes)
        ensures
            secure_contents(r) == value@,
    {
        SecureBytes { inner: zeroize::Zeroizing::new(value) }
    }

    /// Relies on zeroize::Zeroizing's Deref impl: exposes the wrapped
    /// vector unchanged.
    #[verifier::external_body]
    pub(crate) fn bytes(&self) -> (r: &Vec<u8>)
        ensures
            r@ == secure_contents(*self),
    {
        &self.inner
    }

    /// Relies on zeroize::Zeroizing's Clone impl: deep-copies the wrapped
    /// vector, so that each copy is wiped independently when dropped.
    #[verifier::external_body]
    pub(crate) fn duplicate(&self) -> (r: SecureBytes)
        ensures
            secure_contents(r) == secure_contents(*self),
    {
        SecureBytes { inner: self.inner.clone() }
    }
}

} // verus!
