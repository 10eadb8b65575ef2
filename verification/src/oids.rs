//! Object identifiers of the supported algorithms, as DER content bytes,
//! and the fixed mapping from object identifier to algorithm.
use vstd::prelude::*;

use crate::bytes_util::bytes_eq;
use crate::key_info::Alg;

verus! {

/// Content bytes of the `rsaEncryption` object identifier, 1.2.840.113549.1.1.1.
pub open spec fn spec_rsa_encryption_oid() -> Seq<u8> {
    seq![42u8, 134, 72, 134, 247, 13, 1, 1, 1]
}

/// Content bytes of the `rsassaPss` object identifier, 1.2.840.113549.1.1.10.
pub open spec fn spec_rsassa_pss_oid() -> Seq<u8> {
    seq![42u8, 134, 72, 134, 247, 13, 1, 1, 10]
}

/// Content bytes of the `id-ecPublicKey` object identifier, 1.2.840.10045.2.1.
pub open spec fn spec_ecdsa_oid() -> Seq<u8> {
    seq![42u8, 134, 72, 206, 61, 2, 1]
}

/// Content bytes of the `prime256v1` object identifier, 1.2.840.10045.3.1.7.
pub open spec fn spec_prime_256_v1_oid() -> Seq<u8> {
    seq![42u8, 134, 72, 206, 61, 3, 1, 7]
}

/// Content bytes of the `id-X25519` object identifier, 1.3.101.110.
pub open spec fn spec_x25519_oid() -> Seq<u8> {
    seq![43u8, 101, 110]
}

/// Content bytes of the `id-X448` object identifier, 1.3.101.111.
pub open spec fn spec_x448_oid() -> Seq<u8> {
    seq![43u8, 101, 111]
}

/// Content bytes of the `id-Ed25519` object identifier, 1.3.101.112.
pub open spec fn spec_ed25519_oid() -> Seq<u8> {
    seq![43u8, 101, 112]
}

/// Content bytes of the `id-Ed448` object identifier, 1.3.101.113.
pub open spec fn spec_ed448_oid() -> Seq<u8> {
    seq![43u8, 101, 113]
}

/// Content bytes of the `id-Ed25519ph` object identifier, 1.3.101.114.
pub open spec fn spec_ed25519ph_oid() -> Seq<u8> {
    seq![43u8, 101, 114]
}

/// Content bytes of the `id-Ed448ph` object identifier, 1.3.101.115.
pub open spec fn spec_ed448ph_oid() -> Seq<u8> {
    seq![43u8, 101, 115]
}

pub fn rsa_encryption_oid() -> (r: Vec<u8>)
    ensures
        r@ =~= spec_rsa_encryption_oid(),
{
    vec![42u8, 134, 72, 134, 247, 13, 1, 1, 1]
}

pub fn rsassa_pss_oid() -> (r: Vec<u8>)
    ensures
        r@ =~= spec_rsassa_pss_oid(),
{
    vec![42u8, 134, 72, 134, 247, 13, 1, 1, 10]
}

pub fn ecdsa_oid() -> (r: Vec<u8>)
    ensures
        r@ =~= spec_ecdsa_oid(),
{
    vec![42u8, 134, 72, 206, 61, 2, 1]
}

pub fn prime_256_v1_oid() -> (r: Vec<u8>)
    ensures
        r@ =~= spec_prime_256_v1_oid(),
{
    vec![42u8, 134, 72, 206, 61, 3, 1, 7]
}

pub fn x25519_oid() -> (r: Vec<u8>)
    ensures
        r@ =~= spec_x25519_oid(),
{
    vec![43u8, 101, 110]
}

pub fn x448_oid() -> (r: Vec<u8>)
    ensures
        r@ =~= spec_x448_oid(),
{
    vec![43u8, 101, 111]
}

pub fn ed25519_oid() -> (r: Vec<u8>)
    ensures
        r@ =~= spec_ed25519_oid(),
{
    vec![43u8, 101, 112]
}

pub fn ed448_oid() -> (r: Vec<u8>)
    ensures
        r@ =~= spec_ed448_oid(),
{
    vec![43u8, 101, 113]
}

pub fn ed25519ph_oid() -> (r: Vec<u8>)
    ensures
        r@ =~= spec_ed25519ph_oid(),
{
    vec![43u8, 101, 114]
}

pub fn ed448ph_oid() -> (r: Vec<u8>)
    ensures
        r@ =~= spec_ed448ph_oid(),
{
    vec![43u8, 101, 115]
}

/// The fixed mapping from object identifier content bytes to algorithm.
///
/// `None` for an object identifier outside the known table. The
/// `rsassaPss` identifier maps to the RSA algorithm: both name the same
/// underlying key material.
pub open spec fn alg_of_oid(o: Seq<u8>) -> Option<Alg> {
    if o == spec_rsa_encryption_oid() {
        Some(Alg::Rsa)
    } else if o == spec_rsassa_pss_oid() {
        Some(Alg::Rsa)
    } else if o == spec_ecdsa_oid() {
        Some(Alg::Ecdsa)
    } else if o == spec_x25519_oid() {
        Some(Alg::X25519)
    } else if o == spec_x448_oid() {
        Some(Alg::X448)
    } else if o == spec_ed25519_oid() {
        Some(Alg::EdDsa25519)
    } else if o == spec_ed448_oid() {
        Some(Alg::EdDsa448)
    } else if o == spec_ed25519ph_oid() {
        Some(Alg::EdDsa25519Ph)
    } else if o == spec_ed448ph_oid() {
        Some(Alg::EdDsa448Ph)
    } else {
        None
    }
}

/// The display rendering of an object identifier: its conventional name
/// with its dotted-decimal form for the known table, a fixed marker for
/// anything else.
pub open spec fn spec_oid_str(o: Seq<u8>) -> Seq<char> {
    if o == spec_rsa_encryption_oid() {
        "rsaEncryption: 1.2.840.113549.1.1.1"@
    } else if o == spec_rsassa_pss_oid() {
        "rsassaPss: 1.2.840.113549.1.1.10"@
    } else if o == spec_ecdsa_oid() {
        "id-ecPublicKey: 1.2.840.10045.2.1"@
    } else if o == spec_prime_256_v1_oid() {
        "prime256v1: 1.2.840.10045.3.1.7"@
    } else if o == spec_x25519_oid() {
        "id-X25519: 1.3.101.110"@
    } else if o == spec_x448_oid() {
        "id-X448: 1.3.101.111"@
    } else if o == spec_ed25519_oid() {
        "id-EdDSA25519: 1.3.101.112"@
    } else if o == spec_ed448_oid() {
        "id-EdDSA448: 1.3.101.113"@
    } else if o == spec_ed25519ph_oid() {
        "id-EdDSA25519-ph: 1.3.101.114"@
    } else if o == spec_ed448ph_oid() {
        "id-EdDSA448-ph: 1.3.101.115"@
    } else {
        "Unknown OID"@
    }
}

/// Render an object identifier, by its content bytes, for display.
pub fn oid_to_str(oid: &[u8]) -> (r: &'static str)
    ensures
        r@ == spec_oid_str(oid@),
{
    let c = rsa_encryption_oid();
    if bytes_eq(oid, c.as_slice()) {
        return "rsaEncryption: 1.2.840.113549.1.1.1";
    }
    let c = rsassa_pss_oid();
    if bytes_eq(oid, c.as_slice()) {
        return "rsassaPss: 1.2.840.113549.1.1.10";
    }
    let c = ecdsa_oid();
    if bytes_eq(oid, c.as_slice()) {
        return "id-ecPublicKey: 1.2.840.10045.2.1";
    }
    let c = prime_256_v1_oid();
    if bytes_eq(oid, c.as_slice()) {
        return "prime256v1: 1.2.840.10045.3.1.7";
    }
    let c = x25519_oid();
    if bytes_eq(oid, c.as_slice()) {
        return "id-X25519: 1.3.101.110";
    }
    let c = x448_oid();
    if bytes_eq(oid, c.as_slice()) {
        return "id-X448: 1.3.101.111";
    }
    let c = ed25519_oid();
    if bytes_eq(oid, c.as_slice()) {
        return "id-EdDSA25519: 1.3.101.112";
    }
    let c = ed448_oid();
    if bytes_eq(oid, c.as_slice()) {
        return "id-EdDSA448: 1.3.101.113";
    }
    let c = ed25519ph_oid();
    if bytes_eq(oid, c.as_slice()) {
        return "id-EdDSA25519-ph: 1.3.101.114";
    }
    let c = ed448ph_oid();
    if bytes_eq(oid, c.as_slice()) {
        return "id-EdDSA448-ph: 1.3.101.115";
    }
    "Unknown OID"
}

/// Classify an object identifier, by its content bytes, as an algorithm.
pub fn alg_from_oid(oid: &[u8]) -> (r: Option<Alg>)
    ensures
        r == alg_of_oid(oid@),
{
    let c = rsa_encryption_oid();
    if bytes_eq(oid, c.as_slice()) {
        return Some(Alg::Rsa);
    }
    let c = rsassa_pss_oid();
    if bytes_eq(oid, c.as_slice()) {
        return Some(Alg::Rsa);
    }
    let c = ecdsa_oid();
    if bytes_eq(oid, c.as_slice()) {
        return Some(Alg::Ecdsa);
    }
    let c = x25519_oid();
    if bytes_eq(oid, c.as_slice()) {
        return Some(Alg::X25519);
    }
    let c = x448_oid();
    if bytes_eq(oid, c.as_slice()) {
        return Some(Alg::X448);
    }
    let c = ed25519_oid();
    if bytes_eq(oid, c.as_slice()) {
        return Some(Alg::EdDsa25519);
    }
    let c = ed448_oid();
    if bytes_eq(oid, c.as_slice()) {
        return Some(Alg::EdDsa448);
    }
    let c = ed25519ph_oid();
    if bytes_eq(oid, c.as_slice()) {
        return Some(Alg::EdDsa25519Ph);
    }
    let c = ed448ph_oid();
    if bytes_eq(oid, c.as_slice()) {
        return Some(Alg::EdDsa448Ph);
    }
    None
}

} // verus!
