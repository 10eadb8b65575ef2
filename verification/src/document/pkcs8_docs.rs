//! Classification of PKCS8 PrivateKeyInfo documents and wrapping of
//! private key material into them.
use vstd::prelude::*;

use crate::alg_id::{rsa_encryption, rsapss_encryption};
use crate::codec;
use crate::errors::Error;
use crate::key_info::{
    opt_bytes_view, spec_key_bits, Alg, Encoding, Format, KeyInfo, KeyInfoView, KeyType,
};
use crate::oids;

verus! {

/// The classification of a PKCS8 PrivateKeyInfo document from its
/// algorithm identifier parts and inner private key bytes.
///
/// The algorithm is derived from the object identifier whenever the
/// identifier is in the known table, so it always agrees with the
/// recorded identifier. Only for an identifier outside the table is
/// the algorithm inferred structurally: RSA when the inner key parses
/// as a PKCS1 RSAPrivateKey, unknown otherwise. Whenever the inner key
/// parses as a PKCS1 RSAPrivateKey, the key length is taken from the
/// private exponent.
pub open spec fn spec_pk8_private_key_info(
    oid: Seq<u8>,
    params: Option<Seq<u8>>,
    key: Seq<u8>,
    encoding: Encoding,
) -> KeyInfoView {
    let sniff = codec::rsa_priv_der_doc(key);
    let alg = match oids::alg_of_oid(oid) {
        Some(a) => a,
        None => if sniff is Some {
            Alg::Rsa
        } else {
            Alg::Unknown
        },
    };
    let key_length = match sniff {
        Some(d_len) => spec_key_bits(d_len),
        None => None,
    };
    KeyInfoView {
        encoding,
        format: Format::PKCS8,
        key_type: KeyType::Private,
        key_length,
        alg,
        oid: Some(oid),
        params,
        bytes: Some(key),
    }
}

/// Classify a parsed PKCS8 private key document from its algorithm
/// identifier parts and inner private key bytes.
pub fn pk8_to_private_key_info(
    oid: Vec<u8>,
    params: Option<Vec<u8>>,
    key: Vec<u8>,
    encoding: Encoding,
) -> (r: KeyInfo)
    ensures
        r@ =~= spec_pk8_private_key_info(oid@, opt_bytes_view(params), key@, encoding),
{
    let sniff = codec::rsa_priv_from_der(key.as_slice());
    let alg = match oids::alg_from_oid(oid.as_slice()) {
        Some(a) => a,
        None => if sniff.is_some() {
            Alg::Rsa
        } else {
            Alg::Unknown
        },
    };
    let key_length = match sniff {
        Some(d_len) => crate::key_info::key_bits(d_len),
        None => None,
    };
    KeyInfo {
        encoding,
        format: Format::PKCS8,
        key_type: KeyType::Private,
        key_length,
        alg,
        oid: Some(oid),
        params,
        bytes: Some(key),
    }
}

/// What wrapping private key material into a PKCS8 PrivateKeyInfo
/// yields, for a requested algorithm.
///
/// Only the RSA family can be wrapped here: the algorithm picks the
/// `rsaEncryption` or `rsassaPss` object identifier, with NULL
/// parameters, and the material becomes the inner private key.
pub open spec fn spec_private_key_info_to_pk8(
    alg: Option<Alg>,
    bytes: Seq<u8>,
    encoding: Encoding,
) -> Result<Seq<u8>, Error> {
    match alg {
        None => Err(Error::MissingAlg),
        Some(Alg::Rsa) => spec_pk8_wrap(oids::spec_rsa_encryption_oid(), bytes, encoding),
        Some(Alg::RsaSsaPss) => spec_pk8_wrap(oids::spec_rsassa_pss_oid(), bytes, encoding),
        Some(_) => Err(Error::UnknownAlg),
    }
}

/// What wrapping key material under a given object identifier, with
/// NULL parameters, yields in the requested encoding.
pub open spec fn spec_pk8_wrap(oid: Seq<u8>, bytes: Seq<u8>, encoding: Encoding) -> Result<
    Seq<u8>,
    Error,
> {
    match encoding {
        Encoding::DER => match codec::pkcs8_wrap_der_of(
            oid,
            Some(crate::alg_id::spec_null_param()),
            bytes,
        ) {
            Some(v) => Ok(v),
            None => Err(Error::BadContainer),
        },
        Encoding::PEM => match codec::pkcs8_wrap_pem_of(
            oid,
            Some(crate::alg_id::spec_null_param()),
            bytes,
        ) {
            Some(v) => Ok(v),
            None => Err(Error::BadContainer),
        },
        _ => Err(Error::NotSupported),
    }
}

/// Wrap private key material into a PKCS8 PrivateKeyInfo document in
/// the requested encoding, under the requested RSA-family algorithm.
pub fn private_key_info_to_pk8(alg: Option<Alg>, key_info: &KeyInfo, encoding: Encoding) -> (r:
    Result<Vec<u8>, Error>)
    requires
        key_info@.bytes is Some,
    ensures
        match r {
            Ok(v) => spec_private_key_info_to_pk8(alg, key_info@.bytes->Some_0, encoding) == Ok::<
                Seq<u8>,
                Error,
            >(v@),
            Err(e) => spec_private_key_info_to_pk8(alg, key_info@.bytes->Some_0, encoding) == Err::<
                Seq<u8>,
                Error,
            >(e),
        },
{
    let alg_id = match alg {
        None => {
            return Err(Error::MissingAlg);
        },
        Some(Alg::Rsa) => rsa_encryption(),
        Some(Alg::RsaSsaPss) => rsapss_encryption(),
        Some(_) => {
            return Err(Error::UnknownAlg);
        },
    };
    if let Some(b) = &key_info.bytes {
        let params = match &alg_id.params {
            Some(p) => Some(p.as_slice()),
            None => None,
        };
        match encoding {
            Encoding::DER => match codec::pkcs8_wrap_der(alg_id.oid.as_slice(), params, b.as_slice()) {
                Some(v) => Ok(v),
                None => Err(Error::BadContainer),
            },
            Encoding::PEM => match codec::pkcs8_wrap_pem(alg_id.oid.as_slice(), params, b.as_slice()) {
                Some(v) => Ok(v),
                None => Err(Error::BadContainer),
            },
            _ => Err(Error::NotSupported),
        }
    } else {
        Err(Error::BadContainer)
    }
}

} // verus!
