//! A pairing of private and public key material.
use vstd::prelude::*;

use crate::key_info::opt_bytes_view;

verus! {

/// The mathematical view of a [`KeyPair`].
#[verifier::ext_equal]
pub ghost struct KeyPairView {
    pub private_key: Option<Seq<u8>>,
    pub public_key: Option<Seq<u8>>,
}

/// Private and public key material held together, each as the DER
/// bytes of its container document.
#[derive(Debug)]
pub struct KeyPair {
    /// The private key's PrivateKeyInfo DER, when held.
    pub private_key: Option<Vec<u8>>,
    /// The public key's SubjectPublicKeyInfo DER, when held.
    pub public_key: Option<Vec<u8>>,
}

impl View for KeyPair {
    type V = KeyPairView;

    open spec fn view(&self) -> KeyPairView {
        KeyPairView {
            private_key: opt_bytes_view(self.private_key),
            public_key: opt_bytes_view(self.public_key),
        }
    }
}

impl KeyPair {
    /// Pair the given private and public key material.
    pub fn new(private_key: Option<Vec<u8>>, public_key: Option<Vec<u8>>) -> (r: Self)
        ensures
            r@ =~= (KeyPairView {
                private_key: opt_bytes_view(private_key),
                public_key: opt_bytes_view(public_key),
            }),
    {
        Self { private_key, public_key }
    }
}

} // verus!
