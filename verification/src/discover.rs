//! The key discovery engine: ordered, fallible probing that classifies
//! an unknown byte buffer as a [`KeyInfo`].
//!
//! Probes run in a fixed order: every public-key interpretation is
//! tried before any private-key interpretation, because some
//! private-key decoders misbehave on public-key bytes. Within each
//! category the buffer is first read as PEM text, then as raw DER. The
//! first probe that succeeds decides the classification; a failed probe
//! is simply skipped.
use vstd::prelude::*;

use crate::codec::{
    enc_pkcs8_der_doc, enc_pkcs8_der_matches, enc_pkcs8_der_plain, enc_pkcs8_pem_doc,
    enc_pkcs8_pem_matches, enc_pkcs8_pem_plain, enc_pkcs8_der_decrypt, enc_pkcs8_pem_decrypt,
    pkcs8_der_doc, pkcs8_from_der, pkcs8_from_pem, pkcs8_pem_doc, rsa_priv_der_doc,
    rsa_priv_from_der, rsa_priv_from_pem, rsa_priv_pem_doc, rsa_pub_der_doc, rsa_pub_from_der,
    rsa_pub_from_pem, rsa_pub_pem_doc, sec1_der_doc, sec1_from_der, sec1_from_pem, sec1_pem_doc,
    spki_der_doc, spki_from_der, spki_from_pem, spki_pem_doc, utf8_chars, utf8_text,
};
use crate::document::pkcs1_docs::{
    pk1_to_rsa_private_key, pk1_to_rsa_public_key, spec_pk1_rsa_private_key,
    spec_pk1_rsa_public_key,
};
use crate::document::pkcs8_docs::{pk8_to_private_key_info, spec_pk8_private_key_info};
use crate::document::sec1_docs::{sec1_to_private_key_info, spec_sec1_private_key_info};
use crate::document::spki_docs::{spec_spki_key_info, spki_to_key_info};
use crate::errors::Error;
use crate::key_info::{Encoding, Format, KeyInfo, KeyInfoView, KeyType};

verus! {

/// The view of an optional text value.
pub open spec fn opt_str_view(o: Option<&str>) -> Option<Seq<char>> {
    match o {
        Some(s) => Some(s@),
        None => None,
    }
}

/// The outcome of the public-key PEM probes, in order: a
/// SubjectPublicKeyInfo document, then a PKCS1 RSAPublicKey document.
pub open spec fn spec_public_pem(bytes: Seq<u8>) -> Option<KeyInfoView> {
    match utf8_chars(bytes) {
        None => None,
        Some(text) => match spki_pem_doc(text) {
            Some(t) => Some(spec_spki_key_info(t.0, t.1, t.2, Encoding::PEM)),
            None => match rsa_pub_pem_doc(text) {
                Some(t) => Some(spec_pk1_rsa_public_key(t.0, t.1, Encoding::PEM)),
                None => None,
            },
        },
    }
}

/// The outcome of the public-key DER probes, in the same order.
pub open spec fn spec_public_der(bytes: Seq<u8>) -> Option<KeyInfoView> {
    match spki_der_doc(bytes) {
        Some(t) => Some(spec_spki_key_info(t.0, t.1, t.2, Encoding::DER)),
        None => match rsa_pub_der_doc(bytes) {
            Some(n_len) => Some(spec_pk1_rsa_public_key(n_len, bytes, Encoding::DER)),
            None => None,
        },
    }
}

/// The outcome of all public-key probes: PEM interpretations first,
/// then DER.
pub open spec fn spec_discover_public(bytes: Seq<u8>) -> Option<KeyInfoView> {
    match spec_public_pem(bytes) {
        Some(v) => Some(v),
        None => spec_public_der(bytes),
    }
}

/// The outcome of the encrypted-PKCS8 probe once the outer encrypted
/// schema has matched a PEM text: without a password the probe fails
/// immediately with `MissingInput`; with one, the container is
/// decrypted and the plain PKCS8 document classified. A failed
/// decryption is conflated with the generic classification failure.
pub open spec fn spec_encrypted_pem(text: Seq<char>, password: Option<Seq<char>>) -> Result<
    KeyInfoView,
    Error,
> {
    match password {
        None => Err(Error::MissingInput),
        Some(p) => match enc_pkcs8_pem_plain(text, p) {
            Some(plain) => match pkcs8_der_doc(plain) {
                Some(t) => Ok(spec_pk8_private_key_info(t.0, t.1, t.2, Encoding::PEM)),
                None => Err(Error::UnknownKeyType),
            },
            None => Err(Error::UnknownKeyType),
        },
    }
}

/// The same encrypted-PKCS8 outcome for a DER buffer.
pub open spec fn spec_encrypted_der(bytes: Seq<u8>, password: Option<Seq<char>>) -> Result<
    KeyInfoView,
    Error,
> {
    match password {
        None => Err(Error::MissingInput),
        Some(p) => match enc_pkcs8_der_plain(bytes, p) {
            Some(plain) => match pkcs8_der_doc(plain) {
                Some(t) => Ok(spec_pk8_private_key_info(t.0, t.1, t.2, Encoding::DER)),
                None => Err(Error::UnknownKeyType),
            },
            None => Err(Error::UnknownKeyType),
        },
    }
}

/// The outcome of the private-key PEM probes, in order: PKCS8, then
/// encrypted PKCS8, then PKCS1, then SEC1. Nothing when the buffer is
/// not text or no PEM probe matched, so the DER probes may follow.
pub open spec fn spec_private_pem(bytes: Seq<u8>, password: Option<Seq<char>>) -> Option<Result<
    KeyInfoView,
    Error,
>> {
    match utf8_chars(bytes) {
        None => None,
        Some(text) => match pkcs8_pem_doc(text) {
            Some(t) => Some(Ok(spec_pk8_private_key_info(t.0, t.1, t.2, Encoding::PEM))),
            None => if enc_pkcs8_pem_doc(text) {
                Some(spec_encrypted_pem(text, password))
            } else {
                match rsa_priv_pem_doc(text) {
                    Some(t) => Some(Ok(spec_pk1_rsa_private_key(t.0, t.1, Encoding::PEM))),
                    None => match sec1_pem_doc(text) {
                        Some(t) => Some(
                            Ok(spec_sec1_private_key_info(t.0, t.1, Encoding::PEM)),
                        ),
                        None => None,
                    },
                }
            },
        },
    }
}

/// The outcome of the private-key DER probes, in the same order; when
/// none matches, discovery has failed.
pub open spec fn spec_private_der(bytes: Seq<u8>, password: Option<Seq<char>>) -> Result<
    KeyInfoView,
    Error,
> {
    match pkcs8_der_doc(bytes) {
        Some(t) => Ok(spec_pk8_private_key_info(t.0, t.1, t.2, Encoding::DER)),
        None => if enc_pkcs8_der_doc(bytes) {
            spec_encrypted_der(bytes, password)
        } else {
            match rsa_priv_der_doc(bytes) {
                Some(d_len) => Ok(spec_pk1_rsa_private_key(d_len, bytes, Encoding::DER)),
                None => match sec1_der_doc(bytes) {
                    Some(curve) => Ok(spec_sec1_private_key_info(curve, bytes, Encoding::DER)),
                    None => Err(Error::UnknownKeyType),
                },
            }
        },
    }
}

/// The outcome of all private-key probes: PEM interpretations first,
/// then DER.
pub open spec fn spec_discover_private(bytes: Seq<u8>, password: Option<Seq<char>>) -> Result<
    KeyInfoView,
    Error,
> {
    match spec_private_pem(bytes, password) {
        Some(r) => r,
        None => spec_private_der(bytes, password),
    }
}

/// The outcome of discovery on a byte buffer: every public-key
/// interpretation is tried before any private-key interpretation.
pub open spec fn spec_discover(bytes: Seq<u8>, password: Option<Seq<char>>) -> Result<
    KeyInfoView,
    Error,
> {
    match spec_discover_public(bytes) {
        Some(v) => Ok(v),
        None => spec_discover_private(bytes, password),
    }
}

/// Probe the buffer for the public-key interpretations.
fn discover_public_key(bytes: &[u8]) -> (r: Option<KeyInfo>)
    ensures
        match r {
            Some(ki) => spec_discover_public(bytes@) == Some(ki@),
            None => spec_discover_public(bytes@) is None,
        },
{
    if let Some(text) = utf8_text(bytes) {
        if let Some((oid, params, key)) = spki_from_pem(text) {
            return Some(spki_to_key_info(oid, params, key, Encoding::PEM));
        }
        if let Some((n_len, der)) = rsa_pub_from_pem(text) {
            return Some(pk1_to_rsa_public_key(n_len, der, Encoding::PEM));
        }
    }
    if let Some((oid, params, key)) = spki_from_der(bytes) {
        return Some(spki_to_key_info(oid, params, key, Encoding::DER));
    }
    if let Some(n_len) = rsa_pub_from_der(bytes) {
        return Some(pk1_to_rsa_public_key(n_len, vstd::slice::slice_to_vec(bytes), Encoding::DER));
    }
    None
}

/// Classify an encrypted PKCS8 PEM text: fail without a password,
/// otherwise decrypt and classify the plain PKCS8 document.
fn discover_encrypted_pem(text: &str, password: Option<&str>) -> (r: Result<KeyInfo, Error>)
    ensures
        match r {
            Ok(ki) => spec_encrypted_pem(text@, opt_str_view(password)) == Ok::<
                KeyInfoView,
                Error,
            >(ki@),
            Err(e) => spec_encrypted_pem(text@, opt_str_view(password)) == Err::<
                KeyInfoView,
                Error,
            >(e),
        },
{
    let p = if let Some(p) = password {
        p
    } else {
        return Err(Error::MissingInput);
    };
    match enc_pkcs8_pem_decrypt(text, p) {
        Some(plain) => match pkcs8_from_der(plain.as_slice()) {
            Some((oid, params, key)) => Ok(pk8_to_private_key_info(oid, params, key, Encoding::PEM)),
            None => Err(Error::UnknownKeyType),
        },
        None => Err(Error::UnknownKeyType),
    }
}

/// Classify an encrypted PKCS8 DER buffer, in the same way.
fn discover_encrypted_der(bytes: &[u8], password: Option<&str>) -> (r: Result<KeyInfo, Error>)
    ensures
        match r {
            Ok(ki) => spec_encrypted_der(bytes@, opt_str_view(password)) == Ok::<
                KeyInfoView,
                Error,
            >(ki@),
            Err(e) => spec_encrypted_der(bytes@, opt_str_view(password)) == Err::<
                KeyInfoView,
                Error,
            >(e),
        },
{
    let p = if let Some(p) = password {
        p
    } else {
        return Err(Error::MissingInput);
    };
    match enc_pkcs8_der_decrypt(bytes, p) {
        Some(plain) => match pkcs8_from_der(plain.as_slice()) {
            Some((oid, params, key)) => Ok(pk8_to_private_key_info(oid, params, key, Encoding::DER)),
            None => Err(Error::UnknownKeyType),
        },
        None => Err(Error::UnknownKeyType),
    }
}

/// Probe the buffer for the private-key interpretations.
fn discover_private_key(bytes: &[u8], password: Option<&str>) -> (r: Result<KeyInfo, Error>)
    ensures
        match r {
            Ok(ki) => spec_discover_private(bytes@, opt_str_view(password)) == Ok::<
                KeyInfoView,
                Error,
            >(ki@),
            Err(e) => spec_discover_private(bytes@, opt_str_view(password)) == Err::<
                KeyInfoView,
                Error,
            >(e),
        },
{
    if let Some(text) = utf8_text(bytes) {
        if let Some((oid, params, key)) = pkcs8_from_pem(text) {
            return Ok(pk8_to_private_key_info(oid, params, key, Encoding::PEM));
        }
        if enc_pkcs8_pem_matches(text) {
            return discover_encrypted_pem(text, password);
        }
        if let Some((d_len, der)) = rsa_priv_from_pem(text) {
            return Ok(pk1_to_rsa_private_key(d_len, der, Encoding::PEM));
        }
        if let Some((curve, der)) = sec1_from_pem(text) {
            return Ok(sec1_to_private_key_info(curve, der, Encoding::PEM));
        }
    }
    if let Some((oid, params, key)) = pkcs8_from_der(bytes) {
        return Ok(pk8_to_private_key_info(oid, params, key, Encoding::DER));
    }
    if enc_pkcs8_der_matches(bytes) {
        return discover_encrypted_der(bytes, password);
    }
    if let Some(d_len) = rsa_priv_from_der(bytes) {
        return Ok(pk1_to_rsa_private_key(d_len, vstd::slice::slice_to_vec(bytes), Encoding::DER));
    }
    if let Some(curve) = sec1_from_der(bytes) {
        return Ok(sec1_to_private_key_info(curve, vstd::slice::slice_to_vec(bytes), Encoding::DER));
    }
    Err(Error::UnknownKeyType)
}

/// Classify a key buffer, with an optional password for encrypted
/// PKCS8 containers.
///
/// Public-key interpretations are probed before private-key ones, each
/// category as PEM text first and raw DER second. The first matching
/// probe decides. When nothing matches, discovery fails with
/// `UnknownKeyType`; an encrypted container with no supplied password
/// fails with `MissingInput`.
pub fn discover(bytes: &[u8], password: Option<&str>) -> (r: Result<KeyInfo, Error>)
    ensures
        match r {
            Ok(ki) => spec_discover(bytes@, opt_str_view(password)) == Ok::<KeyInfoView, Error>(
                ki@,
            ),
            Err(e) => spec_discover(bytes@, opt_str_view(password)) == Err::<KeyInfoView, Error>(
                e,
            ),
        },
{
    match discover_public_key(bytes) {
        Some(ki) => Ok(ki),
        None => discover_private_key(bytes, password),
    }
}

/// Law: a buffer that any public-key probe accepts always resolves to
/// the public interpretation, whatever password is supplied and whether
/// or not a private-key schema would also accept the buffer.
pub proof fn lemma_public_interpretation_first(bytes: Seq<u8>, password: Option<Seq<char>>)
    requires
        spec_discover_public(bytes) is Some,
    ensures
        spec_discover(bytes, password) == Ok::<KeyInfoView, Error>(
            spec_discover_public(bytes)->Some_0,
        ),
        spec_discover(bytes, password)->Ok_0.key_type == KeyType::Public,
{
}

/// Law: when no public-key probe accepts the buffer and the first
/// private-key probe to accept it is the encrypted PKCS8 schema,
/// discovery without a password fails with `MissingInput`.
pub proof fn lemma_encrypted_without_password(bytes: Seq<u8>)
    requires
        spec_discover_public(bytes) is None,
        match utf8_chars(bytes) {
            Some(text) => pkcs8_pem_doc(text) is None && enc_pkcs8_pem_doc(text),
            None => pkcs8_der_doc(bytes) is None && enc_pkcs8_der_doc(bytes),
        },
    ensures
        spec_discover(bytes, None) == Err::<KeyInfoView, Error>(Error::MissingInput),
{
}

/// Law: an encrypted PKCS8 PEM input, discovered with a password that
/// decrypts it, classifies exactly like the decrypted plain container
/// discovered directly, apart from the encoding bookkeeping: the PEM
/// wrapper is recorded on one side and raw DER on the other.
pub proof fn lemma_encrypted_matches_plain(bytes: Seq<u8>, password: Seq<char>, plain: Seq<u8>)
    requires
        spec_discover_public(bytes) is None,
        match utf8_chars(bytes) {
            Some(text) => pkcs8_pem_doc(text) is None && enc_pkcs8_pem_doc(text)
                && enc_pkcs8_pem_plain(text, password) == Some(plain),
            None => false,
        },
        spec_discover_public(plain) is None,
        utf8_chars(plain) is None,
        pkcs8_der_doc(plain) is Some,
    ensures
        spec_discover(bytes, Some(password)) matches Ok(ki1) && ki1.encoding == Encoding::PEM,
        spec_discover(plain, None) matches Ok(ki2) && ki2.encoding == Encoding::DER,
        spec_discover(bytes, Some(password))->Ok_0 == (KeyInfoView {
            encoding: Encoding::PEM,
            ..spec_discover(plain, None)->Ok_0
        }),
{
}

/// Law: discovering a DER buffer that parses as a PKCS8 PrivateKeyInfo
/// recovers exactly the container's inner key bytes as the key
/// material, classified as a private PKCS8 key; when the inner bytes
/// are a PKCS1 RSAPrivateKey, the algorithm is RSA. This is the
/// recovery half of a wrap-then-discover round trip.
pub proof fn lemma_pkcs8_discovery_recovers_material(
    out: Seq<u8>,
    password: Option<Seq<char>>,
    oid: Seq<u8>,
    params: Option<Seq<u8>>,
    inner: Seq<u8>,
)
    requires
        spec_discover_public(out) is None,
        utf8_chars(out) is None,
        pkcs8_der_doc(out) == Some((oid, params, inner)),
    ensures
        spec_discover(out, password) matches Ok(ki) && ki.format == Format::PKCS8
            && ki.key_type == KeyType::Private && ki.bytes == Some(inner) && ki.oid == Some(oid),
        match crate::oids::alg_of_oid(oid) {
            Some(a) => spec_discover(out, password)->Ok_0.alg == a,
            None => rsa_priv_der_doc(inner) is Some ==> spec_discover(out, password)->Ok_0.alg
                == crate::key_info::Alg::Rsa,
        },
{
}

/// Law: a discovered PKCS8 or SPKI descriptor's recorded algorithm
/// identifier, when it is in the known table, agrees with the
/// descriptor's algorithm: the algorithm is derived from the
/// identifier itself, and the structural RSA inference never
/// overrides an identifier the table knows. (A SEC1 descriptor
/// records the named curve's identifier in the same field, which the
/// algorithm table does not cover.)
pub proof fn lemma_oid_algorithm_agreement(bytes: Seq<u8>, password: Option<Seq<char>>)
    ensures
        spec_discover(bytes, password) matches Ok(ki) ==> ((ki.format == Format::PKCS8
            || ki.format == Format::SPKI) ==> match ki.oid {
            Some(o) => match crate::oids::alg_of_oid(o) {
                Some(a) => ki.alg == a,
                None => true,
            },
            None => true,
        }),
{
}

/// Law: a successful discovery yields a fully classified descriptor:
/// its encoding, format and key type are never unknown, and its key
/// material is set.
pub proof fn lemma_discovery_classifies(bytes: Seq<u8>, password: Option<Seq<char>>)
    ensures
        spec_discover(bytes, password) matches Ok(ki) ==> ki.key_type != KeyType::Unknown
            && ki.format != Format::Unknown && ki.encoding != Encoding::Unknown && ki.bytes is Some,
{
}

} // verus!
