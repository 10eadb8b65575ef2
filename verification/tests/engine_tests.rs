//! End-to-end tests of the discovery and conversion engines, run
//! against the real codec crates.
use der::Document;
use pkcs1::{EncodeRsaPrivateKey, EncodeRsaPublicKey, RsaPrivateKey, RsaPublicKey, UIntBytes};
use pkcs8::der::Any;
use pkcs8::{AlgorithmIdentifier, ObjectIdentifier, PrivateKeyInfo};
use sec1::{EcParameters, EcPrivateKey};

use kt::app_state::AppState;
use kt::conversion::convert;
use kt::discover::discover;
use kt::errors::Error;
use kt::key_info::{Alg, Encoding, Format, KeyInfo, KeyType};

const RSA_OID: [u8; 9] = [42, 134, 72, 134, 247, 13, 1, 1, 1];
const ECDSA_OID: [u8; 7] = [42, 134, 72, 206, 61, 2, 1];
const P256_OID: [u8; 8] = [42, 134, 72, 206, 61, 3, 1, 7];

/// A structurally valid RSA private key of the given modulus size in
/// bytes, as PKCS1 DER. The integers are patterned filler: the parsers
/// check the ASN.1 structure, not the key math.
fn rsa_private_pkcs1_der(nbytes: usize) -> Vec<u8> {
    let mut n = vec![0u8; nbytes];
    n[0] = 0xB7;
    for i in 1..nbytes {
        n[i] = (i % 251 + 1) as u8;
    }
    let e = [0x01u8, 0x00, 0x01];
    let mut d = vec![0u8; nbytes];
    d[0] = 0xA3;
    for i in 1..nbytes {
        d[i] = (i % 241 + 1) as u8;
    }
    let small = [0x03u8];
    let key = RsaPrivateKey {
        modulus: UIntBytes::new(&n).unwrap(),
        public_exponent: UIntBytes::new(&e).unwrap(),
        private_exponent: UIntBytes::new(&d).unwrap(),
        prime1: UIntBytes::new(&small).unwrap(),
        prime2: UIntBytes::new(&small).unwrap(),
        exponent1: UIntBytes::new(&small).unwrap(),
        exponent2: UIntBytes::new(&small).unwrap(),
        coefficient: UIntBytes::new(&small).unwrap(),
        other_prime_infos: None,
    };
    key.to_der().unwrap().as_der().to_vec()
}

fn rsa_private_pkcs1_pem(nbytes: usize) -> Vec<u8> {
    let der = rsa_private_pkcs1_der(nbytes);
    let doc = pkcs1::RsaPrivateKeyDocument::from_der(&der).unwrap();
    doc.to_pkcs1_pem(pkcs1::LineEnding::CRLF).unwrap().as_bytes().to_vec()
}

/// A structurally valid RSA public key as PKCS1 DER.
fn rsa_public_pkcs1_der(nbytes: usize) -> Vec<u8> {
    let mut n = vec![0u8; nbytes];
    n[0] = 0xB7;
    for i in 1..nbytes {
        n[i] = (i % 251 + 1) as u8;
    }
    let e = [0x01u8, 0x00, 0x01];
    let key = RsaPublicKey {
        modulus: UIntBytes::new(&n).unwrap(),
        public_exponent: UIntBytes::new(&e).unwrap(),
    };
    key.to_der().unwrap().as_der().to_vec()
}

fn rsa_public_pkcs1_pem(nbytes: usize) -> Vec<u8> {
    let der = rsa_public_pkcs1_der(nbytes);
    let doc = pkcs1::RsaPublicKeyDocument::from_der(&der).unwrap();
    doc.to_pkcs1_pem(pkcs1::LineEnding::CRLF).unwrap().as_bytes().to_vec()
}

fn rsa_alg_id<'a>() -> AlgorithmIdentifier<'a> {
    AlgorithmIdentifier {
        oid: ObjectIdentifier::new("1.2.840.113549.1.1.1"),
        parameters: Some(Any::NULL),
    }
}

/// The PKCS1 private key wrapped into a PKCS8 PrivateKeyInfo, as DER.
fn rsa_private_pkcs8_der(nbytes: usize) -> Vec<u8> {
    let inner = rsa_private_pkcs1_der(nbytes);
    let info = PrivateKeyInfo::new(rsa_alg_id(), &inner);
    info.to_der().unwrap().as_der().to_vec()
}

fn rsa_private_pkcs8_pem(nbytes: usize) -> Vec<u8> {
    let inner = rsa_private_pkcs1_der(nbytes);
    let info = PrivateKeyInfo::new(rsa_alg_id(), &inner);
    info.to_pem(pkcs8::LineEnding::CRLF).unwrap().as_bytes().to_vec()
}

/// The PKCS1 public key wrapped into a SubjectPublicKeyInfo, as DER.
fn rsa_public_spki_der(nbytes: usize) -> Vec<u8> {
    let inner = rsa_public_pkcs1_der(nbytes);
    let ski = spki::SubjectPublicKeyInfo {
        algorithm: rsa_alg_id(),
        subject_public_key: &inner,
    };
    let doc: spki::PublicKeyDocument = ski.try_into().unwrap();
    doc.as_der().to_vec()
}

fn rsa_public_spki_pem(nbytes: usize) -> Vec<u8> {
    let der = rsa_public_spki_der(nbytes);
    let doc = spki::PublicKeyDocument::from_der(&der).unwrap();
    doc.to_pem(pkcs8::LineEnding::CRLF).unwrap().as_bytes().to_vec()
}

/// A structurally valid SEC1 elliptic curve private key, as DER.
fn ec_private_sec1_der() -> Vec<u8> {
    let secret = [0x11u8; 32];
    let curve: ObjectIdentifier = ObjectIdentifier::new("1.2.840.10045.3.1.7");
    let key = EcPrivateKey {
        private_key: &secret,
        parameters: Some(EcParameters::NamedCurve(curve)),
        public_key: None,
    };
    let doc = sec1::EcPrivateKeyDocument::from_msg(&key).unwrap();
    doc.as_der().to_vec()
}

fn ec_private_sec1_pem() -> Vec<u8> {
    let der = ec_private_sec1_der();
    let doc = sec1::EcPrivateKeyDocument::from_der(&der).unwrap();
    doc.to_pem(sec1::LineEnding::CRLF).unwrap().as_bytes().to_vec()
}

/// The PKCS8 private key encrypted under the given password, as PEM.
fn rsa_private_encrypted_pkcs8_pem(nbytes: usize, password: &str) -> Vec<u8> {
    let plain = rsa_private_pkcs8_der(nbytes);
    let doc = pkcs8::PrivateKeyDocument::from_der(&plain).unwrap();
    let salt = [0x55u8; 16];
    let iv = [0x66u8; 16];
    let params = pkcs8::pkcs5::pbes2::Parameters::pbkdf2_sha256_aes256cbc(2048, &salt, &iv).unwrap();
    let enc = doc.encrypt_with_params(params, password).unwrap();
    enc.to_pem(pkcs8::LineEnding::CRLF).unwrap().as_bytes().to_vec()
}

fn target(format: Format, encoding: Encoding, ki: &KeyInfo) -> AppState {
    let mut st = AppState::new();
    st.format = Some(format);
    st.encoding = encoding;
    st.resolve_defaults(ki);
    st
}

#[test]
fn discovers_pkcs1_private_der() {
    let der = rsa_private_pkcs1_der(256);
    let ki = discover(&der, None).unwrap();
    assert_eq!(ki.alg, Alg::Rsa);
    assert_eq!(ki.format, Format::PKCS1);
    assert_eq!(ki.key_type, KeyType::Private);
    assert_eq!(ki.encoding, Encoding::DER);
    assert_eq!(ki.key_length, Some(2048));
    assert_eq!(ki.oid, None);
    assert_eq!(ki.bytes, Some(der));
}

#[test]
fn discovers_pkcs1_private_pem() {
    let pem = rsa_private_pkcs1_pem(256);
    let der = rsa_private_pkcs1_der(256);
    let ki = discover(&pem, None).unwrap();
    assert_eq!(ki.alg, Alg::Rsa);
    assert_eq!(ki.format, Format::PKCS1);
    assert_eq!(ki.key_type, KeyType::Private);
    assert_eq!(ki.encoding, Encoding::PEM);
    assert_eq!(ki.key_length, Some(2048));
    assert_eq!(ki.bytes, Some(der));
}

#[test]
fn discovers_pkcs1_public_der() {
    let der = rsa_public_pkcs1_der(256);
    let ki = discover(&der, None).unwrap();
    assert_eq!(ki.alg, Alg::Rsa);
    assert_eq!(ki.format, Format::PKCS1);
    assert_eq!(ki.key_type, KeyType::Public);
    assert_eq!(ki.encoding, Encoding::DER);
    assert_eq!(ki.key_length, Some(2048));
    assert_eq!(ki.bytes, Some(der));
}

#[test]
fn discovers_pkcs1_public_pem() {
    let pem = rsa_public_pkcs1_pem(256);
    let ki = discover(&pem, None).unwrap();
    assert_eq!(ki.key_type, KeyType::Public);
    assert_eq!(ki.format, Format::PKCS1);
    assert_eq!(ki.encoding, Encoding::PEM);
    assert_eq!(ki.bytes, Some(rsa_public_pkcs1_der(256)));
}

#[test]
fn discovers_pkcs8_private_der() {
    let der = rsa_private_pkcs8_der(256);
    let inner = rsa_private_pkcs1_der(256);
    let ki = discover(&der, None).unwrap();
    assert_eq!(ki.alg, Alg::Rsa);
    assert_eq!(ki.format, Format::PKCS8);
    assert_eq!(ki.key_type, KeyType::Private);
    assert_eq!(ki.encoding, Encoding::DER);
    assert_eq!(ki.key_length, Some(2048));
    assert_eq!(ki.oid, Some(RSA_OID.to_vec()));
    assert_eq!(ki.params, Some(vec![5u8, 0]));
    assert_eq!(ki.bytes, Some(inner));
}

#[test]
fn discovers_pkcs8_private_pem() {
    let pem = rsa_private_pkcs8_pem(256);
    let inner = rsa_private_pkcs1_der(256);
    let ki = discover(&pem, None).unwrap();
    assert_eq!(ki.alg, Alg::Rsa);
    assert_eq!(ki.format, Format::PKCS8);
    assert_eq!(ki.encoding, Encoding::PEM);
    assert_eq!(ki.key_length, Some(2048));
    assert_eq!(ki.bytes, Some(inner));
}

#[test]
fn discovers_spki_public_der() {
    let der = rsa_public_spki_der(256);
    let inner = rsa_public_pkcs1_der(256);
    let ki = discover(&der, None).unwrap();
    assert_eq!(ki.alg, Alg::Rsa);
    assert_eq!(ki.format, Format::SPKI);
    assert_eq!(ki.key_type, KeyType::Public);
    assert_eq!(ki.encoding, Encoding::DER);
    assert_eq!(ki.key_length, Some(2048));
    assert_eq!(ki.oid, Some(RSA_OID.to_vec()));
    assert_eq!(ki.bytes, Some(inner));
}

#[test]
fn discovers_spki_public_pem() {
    let pem = rsa_public_spki_pem(256);
    let ki = discover(&pem, None).unwrap();
    assert_eq!(ki.format, Format::SPKI);
    assert_eq!(ki.key_type, KeyType::Public);
    assert_eq!(ki.encoding, Encoding::PEM);
}

#[test]
fn discovers_sec1_private_der() {
    let der = ec_private_sec1_der();
    let ki = discover(&der, None).unwrap();
    assert_eq!(ki.alg, Alg::Ecdsa);
    assert_eq!(ki.format, Format::SEC1);
    assert_eq!(ki.key_type, KeyType::Private);
    assert_eq!(ki.encoding, Encoding::DER);
    assert_eq!(ki.key_length, None);
    assert_eq!(ki.oid, Some(P256_OID.to_vec()));
    assert_eq!(ki.bytes, Some(der));
}

#[test]
fn discovers_sec1_private_pem() {
    let pem = ec_private_sec1_pem();
    let ki = discover(&pem, None).unwrap();
    assert_eq!(ki.alg, Alg::Ecdsa);
    assert_eq!(ki.format, Format::SEC1);
    assert_eq!(ki.encoding, Encoding::PEM);
    assert_eq!(ki.bytes, Some(ec_private_sec1_der()));
}

#[test]
fn known_identifier_beats_structural_inference() {
    // A well-formed PKCS8 container may carry a table-known identifier
    // over inner bytes that also happen to parse as a PKCS1 RSA key;
    // the algorithm must follow the identifier, never the inner shape.
    let inner = rsa_private_pkcs1_der(256);
    let alg_id = AlgorithmIdentifier {
        oid: ObjectIdentifier::new("1.3.101.112"),
        parameters: None,
    };
    let info = PrivateKeyInfo::new(alg_id, &inner);
    let der = info.to_der().unwrap().as_der().to_vec();
    let ki = discover(&der, None).unwrap();
    assert_eq!(ki.format, Format::PKCS8);
    assert_eq!(ki.oid, Some(vec![43u8, 101, 112]));
    assert_eq!(ki.alg, Alg::EdDsa25519);
    assert_eq!(ki.key_length, Some(2048));
    assert_eq!(ki.bytes, Some(inner));
}

#[test]
fn unknown_identifier_allows_structural_inference() {
    // Outside the table, a raw RSA inner structure still identifies
    // the algorithm structurally.
    let inner = rsa_private_pkcs1_der(256);
    let alg_id = AlgorithmIdentifier {
        oid: ObjectIdentifier::new("1.2.3.4.5"),
        parameters: None,
    };
    let info = PrivateKeyInfo::new(alg_id, &inner);
    let der = info.to_der().unwrap().as_der().to_vec();
    let ki = discover(&der, None).unwrap();
    assert_eq!(ki.format, Format::PKCS8);
    assert_eq!(ki.alg, Alg::Rsa);
    assert_eq!(ki.key_length, Some(2048));
}

#[test]
fn unknown_buffers_are_rejected() {
    assert_eq!(discover(b"not a key at all", None).unwrap_err(), Error::UnknownKeyType);
    assert_eq!(discover(b"", None).unwrap_err(), Error::UnknownKeyType);
    assert_eq!(discover(&[0x30, 0x03, 0x02, 0x01, 0x00], None).unwrap_err(), Error::UnknownKeyType);
}

#[test]
fn rsa_key_length_2048_and_4096() {
    for fixture in [
        rsa_private_pkcs1_pem(256),
        rsa_private_pkcs8_pem(256),
    ] {
        assert_eq!(discover(&fixture, None).unwrap().key_length, Some(2048));
    }
    for fixture in [
        rsa_private_pkcs1_pem(512),
        rsa_private_pkcs8_pem(512),
    ] {
        assert_eq!(discover(&fixture, None).unwrap().key_length, Some(4096));
    }
}

#[test]
fn encrypted_input_needs_password() {
    let enc = rsa_private_encrypted_pkcs8_pem(256, "hunter2 passphrase");
    assert_eq!(discover(&enc, None).unwrap_err(), Error::MissingInput);
}

#[test]
fn encrypted_input_with_password_matches_plain() {
    let enc = rsa_private_encrypted_pkcs8_pem(256, "hunter2 passphrase");
    let plain_pem = rsa_private_pkcs8_pem(256);
    let ki = discover(&enc, Some("hunter2 passphrase")).unwrap();
    let plain_ki = discover(&plain_pem, None).unwrap();
    assert_eq!(ki.alg, plain_ki.alg);
    assert_eq!(ki.key_type, plain_ki.key_type);
    assert_eq!(ki.bytes, plain_ki.bytes);
    assert_eq!(ki.format, Format::PKCS8);
    assert_eq!(ki.encoding, Encoding::PEM);
}

#[test]
fn encrypted_input_wrong_password_fails() {
    let enc = rsa_private_encrypted_pkcs8_pem(256, "hunter2 passphrase");
    assert_eq!(discover(&enc, Some("wrong")).unwrap_err(), Error::UnknownKeyType);
}

#[test]
fn public_interpretation_wins() {
    // All probes run on this buffer: it is valid text, so the PEM
    // probes are consulted, and a password is supplied, so the
    // encrypted-container probe could consume it; the public DER
    // interpretation must still decide.
    let der = rsa_public_spki_der(256);
    let ki = discover(&der, Some("ignored")).unwrap();
    assert_eq!(ki.key_type, KeyType::Public);
    let pem = rsa_public_spki_pem(256);
    let ki = discover(&pem, Some("ignored")).unwrap();
    assert_eq!(ki.key_type, KeyType::Public);
}

fn assert_round_trip(bytes: &[u8], password: Option<&str>) {
    let ki = discover(bytes, password).unwrap();
    let st = target(ki.format, ki.encoding, &ki);
    let out = convert(&st, &ki).unwrap();
    let ki2 = discover(&out, password).unwrap();
    assert_eq!(ki2.alg, ki.alg);
    assert_eq!(ki2.key_type, ki.key_type);
    assert_eq!(ki2.bytes, ki.bytes);
}

#[test]
fn round_trip_pkcs1_private() {
    assert_round_trip(&rsa_private_pkcs1_der(256), None);
    assert_round_trip(&rsa_private_pkcs1_pem(256), None);
}

#[test]
fn round_trip_pkcs1_public() {
    assert_round_trip(&rsa_public_pkcs1_der(256), None);
    assert_round_trip(&rsa_public_pkcs1_pem(256), None);
}

#[test]
fn round_trip_pkcs8_private() {
    assert_round_trip(&rsa_private_pkcs8_der(256), None);
    assert_round_trip(&rsa_private_pkcs8_pem(256), None);
}

#[test]
fn round_trip_spki_public() {
    assert_round_trip(&rsa_public_spki_der(256), None);
    assert_round_trip(&rsa_public_spki_pem(256), None);
}

#[test]
fn round_trip_sec1_private() {
    assert_round_trip(&ec_private_sec1_der(), None);
    assert_round_trip(&ec_private_sec1_pem(), None);
}

#[test]
fn conversion_is_idempotent() {
    let ki = discover(&rsa_private_pkcs1_pem(256), None).unwrap();
    for (format, encoding) in [
        (Format::PKCS1, Encoding::PEM),
        (Format::PKCS1, Encoding::DER),
        (Format::PKCS8, Encoding::PEM),
        (Format::PKCS8, Encoding::DER),
    ] {
        let st = target(format, encoding, &ki);
        let first = convert(&st, &ki).unwrap();
        let second = convert(&st, &ki).unwrap();
        assert_eq!(first, second);
    }
}

#[test]
fn pkcs1_to_pkcs8_and_back_preserves_key_material() {
    let ki = discover(&rsa_private_pkcs1_pem(256), None).unwrap();
    let st = target(Format::PKCS8, Encoding::PEM, &ki);
    let pkcs8_out = convert(&st, &ki).unwrap();
    let ki8 = discover(&pkcs8_out, None).unwrap();
    assert_eq!(ki8.format, Format::PKCS8);
    let st = target(Format::PKCS1, Encoding::PEM, &ki8);
    let pkcs1_out = convert(&st, &ki8).unwrap();
    let ki1 = discover(&pkcs1_out, None).unwrap();
    assert_eq!(ki1.format, Format::PKCS1);
    assert_eq!(ki1.alg, ki.alg);
    assert_eq!(ki1.key_type, ki.key_type);
    assert_eq!(ki1.bytes, ki.bytes);
}

#[test]
fn public_to_private_fails_type_mismatch() {
    let ki = discover(&rsa_public_spki_der(256), None).unwrap();
    for (format, encoding) in [
        (Format::PKCS1, Encoding::DER),
        (Format::PKCS8, Encoding::PEM),
        (Format::SPKI, Encoding::DER),
        (Format::SEC1, Encoding::PEM),
    ] {
        let mut st = target(format, encoding, &ki);
        st.key_type = Some(KeyType::Private);
        assert_eq!(convert(&st, &ki).unwrap_err(), Error::TypeMismatch);
    }
}

#[test]
fn ecdsa_to_pkcs1_fails_not_supported() {
    let ki = discover(&ec_private_sec1_der(), None).unwrap();
    for encoding in [Encoding::DER, Encoding::PEM] {
        let st = target(Format::PKCS1, encoding, &ki);
        assert_eq!(convert(&st, &ki).unwrap_err(), Error::NotSupported);
    }
}

#[test]
fn cross_family_request_fails_not_supported() {
    let ki = discover(&rsa_private_pkcs1_der(256), None).unwrap();
    let mut st = target(Format::PKCS1, Encoding::DER, &ki);
    st.alg = Some(Alg::Ecdsa);
    assert_eq!(convert(&st, &ki).unwrap_err(), Error::NotSupported);
}

#[test]
fn rsa_family_rewrap_as_pss() {
    let ki = discover(&rsa_private_pkcs1_der(256), None).unwrap();
    let mut st = target(Format::PKCS8, Encoding::DER, &ki);
    st.alg = Some(Alg::RsaSsaPss);
    let out = convert(&st, &ki).unwrap();
    let ki8 = discover(&out, None).unwrap();
    assert_eq!(ki8.format, Format::PKCS8);
    // The rsassaPss identifier names the same key material as RSA.
    assert_eq!(ki8.oid, Some([42u8, 134, 72, 134, 247, 13, 1, 1, 10].to_vec()));
    assert_eq!(ki8.bytes, ki.bytes);
}

#[test]
fn jwk_output_is_not_supported() {
    let ki = discover(&rsa_private_pkcs1_der(256), None).unwrap();
    let st = target(Format::PKCS1, Encoding::JWK, &ki);
    assert_eq!(convert(&st, &ki).unwrap_err(), Error::NotSupported);
}

#[test]
fn missing_format_and_algorithm_are_reported() {
    let ki = discover(&rsa_private_pkcs1_der(256), None).unwrap();
    let mut st = AppState::new();
    st.encoding = Encoding::DER;
    st.key_type = Some(KeyType::Private);
    assert_eq!(convert(&st, &ki).unwrap_err(), Error::MissingFormat);
    st.format = Some(Format::PKCS8);
    assert_eq!(convert(&st, &ki).unwrap_err(), Error::MissingAlg);
}

#[test]
fn bad_key_material_is_reported() {
    let ki = KeyInfo::new()
        .with_alg(Alg::Rsa)
        .with_key_type(KeyType::Private)
        .with_format(Format::PKCS1)
        .with_encoding(Encoding::DER)
        .with_bytes(b"garbage");
    let st = target(Format::PKCS1, Encoding::DER, &ki);
    assert_eq!(convert(&st, &ki).unwrap_err(), Error::BadContainer);
}

#[test]
fn ec_public_without_identifier_is_unknown_alg() {
    let ki = KeyInfo::new()
        .with_alg(Alg::Ecdsa)
        .with_key_type(KeyType::Public)
        .with_format(Format::SPKI)
        .with_encoding(Encoding::DER)
        .with_bytes(&[4, 1, 2]);
    let st = target(Format::SPKI, Encoding::DER, &ki);
    assert_eq!(convert(&st, &ki).unwrap_err(), Error::UnknownAlg);
}

#[test]
fn ec_private_to_pkcs8_request_emits_sec1() {
    // The dispatch matrix sends every supported elliptic curve private
    // request, apart from the rejected PKCS1 form, to a SEC1 document.
    let ki = discover(&ec_private_sec1_der(), None).unwrap();
    let st = target(Format::PKCS8, Encoding::DER, &ki);
    let out = convert(&st, &ki).unwrap();
    assert_eq!(out, ec_private_sec1_der());
}
