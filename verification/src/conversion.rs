//! The conversion engine: compatibility checks and the dispatch matrix
//! that re-serializes a classified key.
//!
//! Conversion first gates on compatibility: a public key can never
//! yield private key material, and a requested algorithm outside the
//! source key's family is rejected. The dispatch matrix then picks the
//! output container from the source family and key type, and the
//! result is serialized in the requested encoding.
use vstd::prelude::*;

use crate::app_state::{AppState, AppStateView};
use crate::document::pkcs1_docs::{
    rsa_private_key_to_pk1, rsa_public_key_to_pk1, spec_rsa_private_key_to_pk1,
    spec_rsa_public_key_to_pk1,
};
use crate::document::pkcs8_docs::{private_key_info_to_pk8, spec_private_key_info_to_pk8};
use crate::document::sec1_docs::{private_key_info_to_sec1, spec_private_key_info_to_sec1};
use crate::document::spki_docs::{key_info_to_spki, spec_key_info_to_spki};
use crate::errors::Error;
use crate::key_info::{Alg, Format, KeyInfo, KeyInfoView, KeyType};

verus! {

/// Whether two algorithms name interchangeable key material: RSA and
/// RSASSA-PSS form one family; every other algorithm is a family of its
/// own.
pub open spec fn spec_same_family(a: Alg, b: Alg) -> bool {
    match (a, b) {
        (Alg::Rsa | Alg::RsaSsaPss, Alg::Rsa | Alg::RsaSsaPss) => true,
        _ => a == b,
    }
}

/// Decide whether two algorithms belong to the same family.
pub fn same_family(a: Alg, b: Alg) -> (r: bool)
    ensures
        r == spec_same_family(a, b),
{
    match (a, b) {
        (Alg::Rsa | Alg::RsaSsaPss, Alg::Rsa | Alg::RsaSsaPss) => true,
        _ => a == b,
    }
}

/// The key type a request asks for: unknown when unset.
pub open spec fn spec_target_key_type(st: AppStateView) -> KeyType {
    match st.key_type {
        Some(k) => k,
        None => KeyType::Unknown,
    }
}

/// What converting an RSA private key yields, by requested format.
pub open spec fn spec_convert_rsa_private(st: AppStateView, ki: KeyInfoView) -> Result<
    Seq<u8>,
    Error,
> {
    match st.format {
        None => Err(Error::MissingFormat),
        Some(Format::PKCS1) => spec_rsa_private_key_to_pk1(ki.bytes->Some_0, st.encoding),
        Some(Format::PKCS8) => spec_private_key_info_to_pk8(st.alg, ki.bytes->Some_0, st.encoding),
        Some(_) => Err(Error::NotSupported),
    }
}

/// What converting an RSA public key yields, by requested format.
pub open spec fn spec_convert_rsa_public(st: AppStateView, ki: KeyInfoView) -> Result<
    Seq<u8>,
    Error,
> {
    match st.format {
        None => Err(Error::MissingFormat),
        Some(Format::PKCS1) => spec_rsa_public_key_to_pk1(ki.bytes->Some_0, st.encoding),
        Some(Format::PKCS8) | Some(Format::SPKI) => spec_key_info_to_spki(st.alg, ki, st.encoding),
        Some(_) => Err(Error::NotSupported),
    }
}

/// What conversion yields for a classified key and a target request.
///
/// The compatibility gate runs first: a public source with a non-public
/// target fails `TypeMismatch`; a requested algorithm outside the
/// source's family fails `NotSupported`. The dispatch matrix then picks
/// the container: RSA-family keys re-encode as PKCS1 or wrap into
/// PKCS8/SPKI by key type; elliptic curve family keys emit a SEC1
/// private document or a SPKI public document, except that a PKCS1
/// request for them fails `NotSupported`. Everything else is
/// unsupported.
pub open spec fn spec_convert(st: AppStateView, ki: KeyInfoView) -> Result<Seq<u8>, Error> {
    if ki.key_type == KeyType::Public && spec_target_key_type(st) != KeyType::Public {
        Err(Error::TypeMismatch)
    } else if match st.alg {
        Some(t) => !spec_same_family(ki.alg, t),
        None => false,
    } {
        Err(Error::NotSupported)
    } else {
        match (ki.alg, ki.key_type) {
            (Alg::Rsa | Alg::RsaSsaPss, KeyType::Private) => spec_convert_rsa_private(st, ki),
            (Alg::Rsa | Alg::RsaSsaPss, KeyType::Public) => spec_convert_rsa_public(st, ki),
            (Alg::EdDsa25519 | Alg::Ecdsa, KeyType::Private) => if st.format == Some(
                Format::PKCS1,
            ) {
                Err(Error::NotSupported)
            } else {
                spec_private_key_info_to_sec1(ki.bytes->Some_0, st.encoding)
            },
            (Alg::EdDsa25519 | Alg::Ecdsa, KeyType::Public) => if st.format == Some(
                Format::PKCS1,
            ) {
                Err(Error::NotSupported)
            } else {
                spec_key_info_to_spki(st.alg, ki, st.encoding)
            },
            _ => Err(Error::NotSupported),
        }
    }
}

/// Check that the provided key's type can yield the requested key
/// type: public key material can never yield a private key.
pub fn verify_key_types(ki_type: KeyType, as_type: KeyType) -> (r: Result<(), Error>)
    ensures
        r == if ki_type == KeyType::Public && as_type != KeyType::Public {
            Err::<(), Error>(Error::TypeMismatch)
        } else {
            Ok::<(), Error>(())
        },
{
    if ki_type == KeyType::Public && as_type != KeyType::Public {
        return Err(Error::TypeMismatch);
    }
    Ok(())
}

/// Convert an RSA private key to the requested format.
fn convert_rsa_private(app_state: &AppState, key_info: &KeyInfo) -> (r: Result<Vec<u8>, Error>)
    requires
        key_info@.bytes is Some,
    ensures
        match r {
            Ok(v) => spec_convert_rsa_private(app_state@, key_info@) == Ok::<Seq<u8>, Error>(v@),
            Err(e) => spec_convert_rsa_private(app_state@, key_info@) == Err::<Seq<u8>, Error>(e),
        },
{
    let format = if let Some(f) = app_state.format {
        f
    } else {
        return Err(Error::MissingFormat);
    };
    match format {
        Format::PKCS1 => rsa_private_key_to_pk1(key_info, app_state.encoding),
        Format::PKCS8 => private_key_info_to_pk8(app_state.alg, key_info, app_state.encoding),
        _ => Err(Error::NotSupported),
    }
}

/// Convert an RSA public key to the requested format.
fn convert_rsa_public(app_state: &AppState, key_info: &KeyInfo) -> (r: Result<Vec<u8>, Error>)
    requires
        key_info@.bytes is Some,
    ensures
        match r {
            Ok(v) => spec_convert_rsa_public(app_state@, key_info@) == Ok::<Seq<u8>, Error>(v@),
            Err(e) => spec_convert_rsa_public(app_state@, key_info@) == Err::<Seq<u8>, Error>(e),
        },
{
    let format = if let Some(f) = app_state.format {
        f
    } else {
        return Err(Error::MissingFormat);
    };
    match format {
        Format::PKCS1 => rsa_public_key_to_pk1(key_info, app_state.encoding),
        Format::PKCS8 | Format::SPKI => key_info_to_spki(app_state.alg, key_info, app_state.encoding),
        _ => Err(Error::NotSupported),
    }
}

/// Dispatch a compatible conversion by the source key's algorithm
/// family and key type.
fn convert_key(app_state: &AppState, key_info: &KeyInfo) -> (r: Result<Vec<u8>, Error>)
    requires
        key_info@.bytes is Some,
        !(key_info@.key_type == KeyType::Public && spec_target_key_type(app_state@)
            != KeyType::Public),
        match app_state@.alg {
            Some(t) => spec_same_family(key_info@.alg, t),
            None => true,
        },
    ensures
        match r {
            Ok(v) => spec_convert(app_state@, key_info@) == Ok::<Seq<u8>, Error>(v@),
            Err(e) => spec_convert(app_state@, key_info@) == Err::<Seq<u8>, Error>(e),
        },
{
    match (key_info.alg, key_info.key_type) {
        (Alg::Rsa | Alg::RsaSsaPss, KeyType::Private) => convert_rsa_private(app_state, key_info),
        (Alg::Rsa | Alg::RsaSsaPss, KeyType::Public) => convert_rsa_public(app_state, key_info),
        (Alg::EdDsa25519 | Alg::Ecdsa, KeyType::Private) => {
            if app_state.format == Some(Format::PKCS1) {
                Err(Error::NotSupported)
            } else {
                private_key_info_to_sec1(key_info, app_state.encoding)
            }
        },
        (Alg::EdDsa25519 | Alg::Ecdsa, KeyType::Public) => {
            if app_state.format == Some(Format::PKCS1) {
                Err(Error::NotSupported)
            } else {
                key_info_to_spki(app_state.alg, key_info, app_state.encoding)
            }
        },
        _ => Err(Error::NotSupported),
    }
}

/// Convert a classified key into the requested container format and
/// encoding.
///
/// The result is a pure function of the classified key and the
/// request: the output bytes for a compatible, supported request, or
/// the first failing gate's error.
pub fn convert(app_state: &AppState, key_info: &KeyInfo) -> (r: Result<Vec<u8>, Error>)
    requires
        key_info@.bytes is Some,
    ensures
        match r {
            Ok(v) => spec_convert(app_state@, key_info@) == Ok::<Seq<u8>, Error>(v@),
            Err(e) => spec_convert(app_state@, key_info@) == Err::<Seq<u8>, Error>(e),
        },
{
    let as_type = match app_state.key_type {
        Some(k) => k,
        None => KeyType::Unknown,
    };
    if let Err(e) = verify_key_types(key_info.key_type, as_type) {
        return Err(e);
    }
    if let Some(t) = app_state.alg {
        if !same_family(key_info.alg, t) {
            return Err(Error::NotSupported);
        }
    }
    convert_key(app_state, key_info)
}

/// Law: conversion of a public key to any target that requests private
/// key material fails with `TypeMismatch`, regardless of the requested
/// format, algorithm and encoding.
pub proof fn lemma_public_to_private_rejected(st: AppStateView, ki: KeyInfoView)
    requires
        ki.key_type == KeyType::Public,
        st.key_type == Some(KeyType::Private),
    ensures
        spec_convert(st, ki) == Err::<Seq<u8>, Error>(Error::TypeMismatch),
{
}

/// Law: a PKCS1 output request for an elliptic curve family key fails
/// with `NotSupported`, regardless of the requested encoding, whenever
/// the compatibility gates pass.
pub proof fn lemma_ec_to_pkcs1_rejected(st: AppStateView, ki: KeyInfoView)
    requires
        ki.alg == Alg::Ecdsa || ki.alg == Alg::EdDsa25519,
        st.format == Some(Format::PKCS1),
        !(ki.key_type == KeyType::Public && spec_target_key_type(st) != KeyType::Public),
        match st.alg {
            Some(t) => spec_same_family(ki.alg, t),
            None => true,
        },
    ensures
        spec_convert(st, ki) == Err::<Seq<u8>, Error>(Error::NotSupported),
{
}

/// Law: a key discovered from a raw PKCS1 or SEC1 DER buffer, when
/// converted back to its own format and encoding, yields exactly the
/// input bytes, so re-discovering the output classifies it as before.
/// This is the byte-identical core of the discover-convert-discover
/// round trip; the compatibility gates are assumed to pass.
pub proof fn lemma_der_round_trip(
    bytes: Seq<u8>,
    password: Option<Seq<char>>,
    st: AppStateView,
    ki: KeyInfoView,
)
    requires
        crate::discover::spec_discover(bytes, password) == Ok::<KeyInfoView, Error>(ki),
        ki.encoding == crate::key_info::Encoding::DER,
        ki.format == Format::PKCS1 || ki.format == Format::SEC1,
        st.format == Some(ki.format),
        st.encoding == crate::key_info::Encoding::DER,
        ki.key_type == KeyType::Public ==> spec_target_key_type(st) == KeyType::Public,
        match st.alg {
            Some(t) => spec_same_family(ki.alg, t),
            None => true,
        },
    ensures
        spec_convert(st, ki) == Ok::<Seq<u8>, Error>(bytes),
        crate::discover::spec_discover(spec_convert(st, ki)->Ok_0, password)
            == crate::discover::spec_discover(bytes, password),
{
}

/// Law: converting the same descriptor to the same target twice
/// produces identical results: conversion is a function of the
/// descriptor and the target alone.
pub proof fn lemma_convert_deterministic(
    st: AppStateView,
    ki: KeyInfoView,
    r1: Result<Seq<u8>, Error>,
    r2: Result<Seq<u8>, Error>,
)
    requires
        r1 == spec_convert(st, ki),
        r2 == spec_convert(st, ki),
    ensures
        r1 == r2,
{
}

} // verus!
