//! Classification and re-encoding of PKCS1 RSA key documents.
use vstd::prelude::*;

use crate::bytes_util::clone_bytes;
use crate::codec;
use crate::errors::Error;
use crate::key_info::{spec_key_bits, key_bits, Alg, Encoding, Format, KeyInfo, KeyInfoView, KeyType};

verus! {

/// The classification of a PKCS1 RSAPrivateKey document: the byte length
/// of its private exponent and its DER bytes.
pub open spec fn spec_pk1_rsa_private_key(d_len: u32, der: Seq<u8>, encoding: Encoding) -> KeyInfoView {
    KeyInfoView {
        encoding,
        format: Format::PKCS1,
        key_type: KeyType::Private,
        key_length: spec_key_bits(d_len),
        alg: Alg::Rsa,
        oid: None,
        params: None,
        bytes: Some(der),
    }
}

/// The classification of a PKCS1 RSAPublicKey document: the byte length
/// of its modulus and its DER bytes.
pub open spec fn spec_pk1_rsa_public_key(n_len: u32, der: Seq<u8>, encoding: Encoding) -> KeyInfoView {
    KeyInfoView {
        encoding,
        format: Format::PKCS1,
        key_type: KeyType::Public,
        key_length: spec_key_bits(n_len),
        alg: Alg::Rsa,
        oid: None,
        params: None,
        bytes: Some(der),
    }
}

/// Classify a parsed PKCS1 private key document. `d_len` is the byte
/// length of the private exponent and `der` the document's DER bytes.
pub fn pk1_to_rsa_private_key(d_len: u32, der: Vec<u8>, encoding: Encoding) -> (r: KeyInfo)
    ensures
        r@ =~= spec_pk1_rsa_private_key(d_len, der@, encoding),
{
    KeyInfo {
        encoding,
        format: Format::PKCS1,
        key_type: KeyType::Private,
        key_length: key_bits(d_len),
        alg: Alg::Rsa,
        oid: None,
        params: None,
        bytes: Some(der),
    }
}

/// Classify a parsed PKCS1 public key document. `n_len` is the byte
/// length of the modulus and `der` the document's DER bytes.
pub fn pk1_to_rsa_public_key(n_len: u32, der: Vec<u8>, encoding: Encoding) -> (r: KeyInfo)
    ensures
        r@ =~= spec_pk1_rsa_public_key(n_len, der@, encoding),
{
    KeyInfo {
        encoding,
        format: Format::PKCS1,
        key_type: KeyType::Public,
        key_length: key_bits(n_len),
        alg: Alg::Rsa,
        oid: None,
        params: None,
        bytes: Some(der),
    }
}

/// What re-encoding RSA private key material as a PKCS1 document yields:
/// the material itself for DER output (a valid document's DER is already
/// canonical), its PEM encoding for PEM output.
pub open spec fn spec_rsa_private_key_to_pk1(bytes: Seq<u8>, encoding: Encoding) -> Result<
    Seq<u8>,
    Error,
> {
    if codec::rsa_priv_der_doc(bytes) is None {
        Err(Error::BadContainer)
    } else {
        match encoding {
            Encoding::DER => Ok(bytes),
            Encoding::PEM => match codec::rsa_priv_pem_of(bytes) {
                Some(p) => Ok(p),
                None => Err(Error::BadContainer),
            },
            _ => Err(Error::NotSupported),
        }
    }
}

/// Re-encode RSA private key material as a PKCS1 document in the
/// requested encoding.
pub fn rsa_private_key_to_pk1(key_info: &KeyInfo, encoding: Encoding) -> (r: Result<Vec<u8>, Error>)
    requires
        key_info@.bytes is Some,
    ensures
        match r {
            Ok(v) => spec_rsa_private_key_to_pk1(key_info@.bytes->Some_0, encoding) == Ok::<
                Seq<u8>,
                Error,
            >(v@),
            Err(e) => spec_rsa_private_key_to_pk1(key_info@.bytes->Some_0, encoding) == Err::<
                Seq<u8>,
                Error,
            >(e),
        },
{
    if let Some(b) = &key_info.bytes {
        if codec::rsa_priv_from_der(b.as_slice()).is_none() {
            return Err(Error::BadContainer);
        }
        match encoding {
            Encoding::DER => Ok(clone_bytes(b)),
            Encoding::PEM => match codec::rsa_priv_to_pem(b.as_slice()) {
                Some(v) => Ok(v),
                None => Err(Error::BadContainer),
            },
            _ => Err(Error::NotSupported),
        }
    } else {
        Err(Error::BadContainer)
    }
}

/// What re-encoding RSA public key material as a PKCS1 document yields.
pub open spec fn spec_rsa_public_key_to_pk1(bytes: Seq<u8>, encoding: Encoding) -> Result<
    Seq<u8>,
    Error,
> {
    if codec::rsa_pub_der_doc(bytes) is None {
        Err(Error::BadContainer)
    } else {
        match encoding {
            Encoding::DER => Ok(bytes),
            Encoding::PEM => match codec::rsa_pub_pem_of(bytes) {
                Some(p) => Ok(p),
                None => Err(Error::BadContainer),
            },
            _ => Err(Error::NotSupported),
        }
    }
}

/// Re-encode RSA public key material as a PKCS1 document in the
/// requested encoding.
pub fn rsa_public_key_to_pk1(key_info: &KeyInfo, encoding: Encoding) -> (r: Result<Vec<u8>, Error>)
    requires
        key_info@.bytes is Some,
    ensures
        match r {
            Ok(v) => spec_rsa_public_key_to_pk1(key_info@.bytes->Some_0, encoding) == Ok::<
                Seq<u8>,
                Error,
            >(v@),
            Err(e) => spec_rsa_public_key_to_pk1(key_info@.bytes->Some_0, encoding) == Err::<
                Seq<u8>,
                Error,
            >(e),
        },
{
    if let Some(b) = &key_info.bytes {
        if codec::rsa_pub_from_der(b.as_slice()).is_none() {
            return Err(Error::BadContainer);
        }
        match encoding {
            Encoding::DER => Ok(clone_bytes(b)),
            Encoding::PEM => match codec::rsa_pub_to_pem(b.as_slice()) {
                Some(v) => Ok(v),
                None => Err(Error::BadContainer),
            },
            _ => Err(Error::NotSupported),
        }
    } else {
        Err(Error::BadContainer)
    }
}

} // verus!
