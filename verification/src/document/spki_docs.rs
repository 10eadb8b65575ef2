//! Classification of SubjectPublicKeyInfo documents and wrapping of
//! public key material into them.
use vstd::prelude::*;

use crate::alg_id::{rsa_encryption, rsapss_encryption};
use crate::codec;
use crate::errors::Error;
use crate::key_info::{
    opt_bytes_view, spec_key_bits, Alg, Encoding, Format, KeyInfo, KeyInfoView, KeyType,
};
use crate::oids;

verus! {

/// The classification of a SubjectPublicKeyInfo document from its
/// algorithm identifier parts and public key bit string contents.
///
/// The algorithm is derived from the object identifier whenever the
/// identifier is in the known table, so it always agrees with the
/// recorded identifier. Only for an identifier outside the table is
/// the algorithm inferred structurally: RSA when the key contents
/// parse as a PKCS1 RSAPublicKey, unknown otherwise. Whenever the key
/// contents parse as a PKCS1 RSAPublicKey, the key length is taken
/// from the modulus.
pub open spec fn spec_spki_key_info(
    oid: Seq<u8>,
    params: Option<Seq<u8>>,
    key: Seq<u8>,
    encoding: Encoding,
) -> KeyInfoView {
    let sniff = codec::rsa_pub_der_doc(key);
    let alg = match oids::alg_of_oid(oid) {
        Some(a) => a,
        None => if sniff is Some {
            Alg::Rsa
        } else {
            Alg::Unknown
        },
    };
    let key_length = match sniff {
        Some(n_len) => spec_key_bits(n_len),
        None => None,
    };
    KeyInfoView {
        encoding,
        format: Format::SPKI,
        key_type: KeyType::Public,
        key_length,
        alg,
        oid: Some(oid),
        params,
        bytes: Some(key),
    }
}

/// Classify a parsed SubjectPublicKeyInfo document from its algorithm
/// identifier parts and public key bit string contents.
pub fn spki_to_key_info(
    oid: Vec<u8>,
    params: Option<Vec<u8>>,
    key: Vec<u8>,
    encoding: Encoding,
) -> (r: KeyInfo)
    ensures
        r@ =~= spec_spki_key_info(oid@, opt_bytes_view(params), key@, encoding),
{
    let sniff = codec::rsa_pub_from_der(key.as_slice());
    let alg = match oids::alg_from_oid(oid.as_slice()) {
        Some(a) => a,
        None => if sniff.is_some() {
            Alg::Rsa
        } else {
            Alg::Unknown
        },
    };
    let key_length = match sniff {
        Some(n_len) => crate::key_info::key_bits(n_len),
        None => None,
    };
    KeyInfo {
        encoding,
        format: Format::SPKI,
        key_type: KeyType::Public,
        key_length,
        alg,
        oid: Some(oid),
        params,
        bytes: Some(key),
    }
}

/// What wrapping public key material into a SubjectPublicKeyInfo
/// yields, for a requested algorithm.
///
/// The RSA family picks the `rsaEncryption` or `rsassaPss` object
/// identifier with NULL parameters. The elliptic curve family
/// reproduces the discovered algorithm identifier verbatim, so curve
/// information is carried through; without a discovered identifier the
/// algorithm is unknown.
pub open spec fn spec_key_info_to_spki(
    alg: Option<Alg>,
    ki: KeyInfoView,
    encoding: Encoding,
) -> Result<Seq<u8>, Error> {
    match ki.bytes {
        None => Err(Error::BadContainer),
        Some(bytes) => match alg {
            None => Err(Error::MissingAlg),
            Some(Alg::Rsa) => spec_spki_wrap(
                oids::spec_rsa_encryption_oid(),
                Some(crate::alg_id::spec_null_param()),
                bytes,
                encoding,
            ),
            Some(Alg::RsaSsaPss) => spec_spki_wrap(
                oids::spec_rsassa_pss_oid(),
                Some(crate::alg_id::spec_null_param()),
                bytes,
                encoding,
            ),
            Some(Alg::Ecdsa) | Some(Alg::EdDsa25519) => match ki.oid {
                None => Err(Error::UnknownAlg),
                Some(oid) => spec_spki_wrap(oid, ki.params, bytes, encoding),
            },
            Some(_) => Err(Error::UnknownAlg),
        },
    }
}

/// What wrapping key material under a given algorithm identifier yields
/// in the requested encoding.
pub open spec fn spec_spki_wrap(
    oid: Seq<u8>,
    params: Option<Seq<u8>>,
    bytes: Seq<u8>,
    encoding: Encoding,
) -> Result<Seq<u8>, Error> {
    match encoding {
        Encoding::DER => match codec::spki_wrap_der_of(oid, params, bytes) {
            Some(v) => Ok(v),
            None => Err(Error::BadContainer),
        },
        Encoding::PEM => match codec::spki_wrap_pem_of(oid, params, bytes) {
            Some(v) => Ok(v),
            None => Err(Error::BadContainer),
        },
        _ => Err(Error::NotSupported),
    }
}

/// Wrap public key material into a SubjectPublicKeyInfo document in the
/// requested encoding, under the requested algorithm.
pub fn key_info_to_spki(alg: Option<Alg>, key_info: &KeyInfo, encoding: Encoding) -> (r: Result<
    Vec<u8>,
    Error,
>)
    requires
        key_info@.bytes is Some,
    ensures
        match r {
            Ok(v) => spec_key_info_to_spki(alg, key_info@, encoding) == Ok::<Seq<u8>, Error>(v@),
            Err(e) => spec_key_info_to_spki(alg, key_info@, encoding) == Err::<Seq<u8>, Error>(e),
        },
{
    let b = if let Some(b) = &key_info.bytes {
        b
    } else {
        return Err(Error::BadContainer);
    };
    let (oid, params): (Vec<u8>, Option<Vec<u8>>) = match alg {
        None => {
            return Err(Error::MissingAlg);
        },
        Some(Alg::Rsa) => {
            let a = rsa_encryption();
            (a.oid, a.params)
        },
        Some(Alg::RsaSsaPss) => {
            let a = rsapss_encryption();
            (a.oid, a.params)
        },
        Some(Alg::Ecdsa) | Some(Alg::EdDsa25519) => {
            match (&key_info.oid, &key_info.params) {
                (Some(o), p) => (
                    crate::bytes_util::clone_bytes(o),
                    crate::bytes_util::clone_opt_bytes(p),
                ),
                (None, _) => {
                    return Err(Error::UnknownAlg);
                },
            }
        },
        Some(_) => {
            return Err(Error::UnknownAlg);
        },
    };
    let params_ref = match &params {
        Some(p) => Some(p.as_slice()),
        None => None,
    };
    match encoding {
        Encoding::DER => match codec::spki_wrap_der(oid.as_slice(), params_ref, b.as_slice()) {
            Some(v) => Ok(v),
            None => Err(Error::BadContainer),
        },
        Encoding::PEM => match codec::spki_wrap_pem(oid.as_slice(), params_ref, b.as_slice()) {
            Some(v) => Ok(v),
            None => Err(Error::BadContainer),
        },
        _ => Err(Error::NotSupported),
    }
}

} // verus!
