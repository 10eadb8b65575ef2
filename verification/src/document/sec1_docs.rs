//! Classification and re-encoding of SEC1 elliptic curve private key
//! documents.
use vstd::prelude::*;

use crate::bytes_util::clone_bytes;
use crate::codec;
use crate::errors::Error;
use crate::key_info::{opt_bytes_view, Alg, Encoding, Format, KeyInfo, KeyInfoView, KeyType};

verus! {

/// The classification of a SEC1 ECPrivateKey document: the named
/// curve's object identifier when present, and the document's DER
/// bytes.
pub open spec fn spec_sec1_private_key_info(
    curve: Option<Seq<u8>>,
    der: Seq<u8>,
    encoding: Encoding,
) -> KeyInfoView {
    KeyInfoView {
        encoding,
        format: Format::SEC1,
        key_type: KeyType::Private,
        key_length: None,
        alg: Alg::Ecdsa,
        oid: curve,
        params: None,
        bytes: Some(der),
    }
}

/// Classify a parsed SEC1 private key document.
pub fn sec1_to_private_key_info(curve: Option<Vec<u8>>, der: Vec<u8>, encoding: Encoding) -> (r:
    KeyInfo)
    ensures
        r@ =~= spec_sec1_private_key_info(opt_bytes_view(curve), der@, encoding),
{
    KeyInfo {
        encoding,
        format: Format::SEC1,
        key_type: KeyType::Private,
        key_length: None,
        alg: Alg::Ecdsa,
        oid: curve,
        params: None,
        bytes: Some(der),
    }
}

/// What re-encoding elliptic curve private key material as a SEC1
/// document yields: the material itself for DER output, its PEM
/// encoding for PEM output.
pub open spec fn spec_private_key_info_to_sec1(bytes: Seq<u8>, encoding: Encoding) -> Result<
    Seq<u8>,
    Error,
> {
    if codec::sec1_der_doc(bytes) is None {
        Err(Error::BadContainer)
    } else {
        match encoding {
            Encoding::DER => Ok(bytes),
            Encoding::PEM => match codec::sec1_pem_of(bytes) {
                Some(p) => Ok(p),
                None => Err(Error::BadContainer),
            },
            _ => Err(Error::NotSupported),
        }
    }
}

/// Re-encode elliptic curve private key material as a SEC1 document in
/// the requested encoding.
pub fn private_key_info_to_sec1(key_info: &KeyInfo, encoding: Encoding) -> (r: Result<
    Vec<u8>,
    Error,
>)
    requires
        key_info@.bytes is Some,
    ensures
        match r {
            Ok(v) => spec_private_key_info_to_sec1(key_info@.bytes->Some_0, encoding) == Ok::<
                Seq<u8>,
                Error,
            >(v@),
            Err(e) => spec_private_key_info_to_sec1(key_info@.bytes->Some_0, encoding) == Err::<
                Seq<u8>,
                Error,
            >(e),
        },
{
    if let Some(b) = &key_info.bytes {
        if codec::sec1_from_der(b.as_slice()).is_none() {
            return Err(Error::BadContainer);
        }
        match encoding {
            Encoding::DER => Ok(clone_bytes(b)),
            Encoding::PEM => match codec::sec1_to_pem(b.as_slice()) {
                Some(v) => Ok(v),
                None => Err(Error::BadContainer),
            },
            _ => Err(Error::NotSupported),
        }
    } else {
        Err(Error::BadContainer)
    }
}

} // verus!
