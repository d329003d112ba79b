//! Byte buffers that are wiped when they are dropped.
use vstd::prelude::*;
use zeroize::{Zeroize, Zeroizing};

verus! {

/// A byte string held in a `zeroize::Zeroizing<Vec<u8>>`, whose `Drop`
/// overwrites the bytes with zeros. Verus cannot declare `Zeroizing` (its
/// bound names the outside trait `Zeroize`), so the buffer is opaque here and
/// its contents are the name `secret_contents`.
#[verifier::external_body]
pub struct SecretBytes {
    bytes: Zeroizing<Vec<u8>>,
}

/// The bytes held by a `SecretBytes`.
pub uninterp spec fn secret_contents(s: SecretBytes) -> Seq<u8>;

impl View for SecretBytes {
    type V = Seq<u8>;

    open spec fn view(&self) -> Seq<u8> {
        secret_contents(*self)
    }
}

impl SecretBytes {
    /// Calls `zeroize::Zeroizing::new`, which moves the vector into the
    /// wrapper unchanged (its source is `Self(value)`): the buffer holds
    /// exactly `bytes`.
    #[verifier::external_body]
    pub(crate) fn new(bytes: Vec<u8>) -> (s: SecretBytes)
        ensures
            secret_contents(s) == bytes@,
    {
        SecretBytes { bytes: Zeroizing::new(bytes) }
    }

    /// Calls `Deref::deref` of `zeroize::Zeroizing` (its source is `&self.0`)
    /// and views the vector as a slice: the slice holds exactly the bytes.
    #[verifier::external_body]
    pub(crate) fn as_slice(&self) -> (s: &[u8])
        ensures
            s@ == secret_contents(*self),
    {
        self.bytes.as_slice()
    }

    /// Calls `Clone::clone` of `zeroize::Zeroizing` (its source is
    /// `Self(self.0.clone())`, a copy of the vector): the copy holds the same
    /// bytes, and is wiped on drop as well.
    #[verifier::external_body]
    pub(crate) fn duplicate(&self) -> (c: SecretBytes)
        ensures
            secret_contents(c) == secret_contents(*self),
    {
        SecretBytes { bytes: self.bytes.clone() }
    }
    /// Calls `Zeroize::zeroize` of `zeroize::Zeroizing`, which forwards to
    /// that of `Vec<u8>`: its source zeroes the spare capacity and every
    /// element, then clears the vector. Claims that the buffer is then empty.
    #[verifier::external_body]
    pub(crate) fn wipe(&mut self)
        ensures
            secret_contents(*final(self)) == Seq::<u8>::empty(),
    {
        self.bytes.zeroize();
    }
}

} // verus!
