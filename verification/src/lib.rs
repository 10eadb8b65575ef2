//! Inspect and convert asymmetric cryptographic key containers.
//!
//! The crate classifies an opaque byte buffer as one of the supported key
//! container formats (PKCS1, PKCS8, SPKI, SEC1) in either PEM or DER
//! encoding, and can re-serialize the classified key into a different
//! container/encoding combination.
pub mod alg_id;
pub mod app_state;
pub mod bytes_util;
pub mod codec;
pub mod conversion;
pub mod discover;
pub mod document;
pub mod errors;
pub mod key_info;
pub mod keypair;
pub mod oids;
pub mod show;

use vstd::prelude::*;

verus! {

} // verus!
