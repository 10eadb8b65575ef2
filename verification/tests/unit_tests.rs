//! Unit tests for the data model, the algorithm identifier helper, the
//! object identifier table, and the metadata rendering.
use kt::alg_id::{alg_id_any, alg_id_with_oid_param, alg_params, ec_encryption, rsa_encryption, rsapss_encryption};
use kt::app_state::{AppState, Command};
use kt::conversion::{same_family, verify_key_types};
use kt::errors::Error;
use kt::key_info::{key_bits, Alg, Encoding, Format, KeyInfo, KeyType};
use kt::keypair::KeyPair;
use kt::oids::{alg_from_oid, oid_to_str};
use kt::show::describe;

const RSA_OID: [u8; 9] = [42, 134, 72, 134, 247, 13, 1, 1, 1];
const PSS_OID: [u8; 9] = [42, 134, 72, 134, 247, 13, 1, 1, 10];
const P256_OID: [u8; 8] = [42, 134, 72, 206, 61, 3, 1, 7];

#[test]
fn alg_id_any_has_null_params() {
    let a = alg_id_any(RSA_OID.to_vec());
    assert_eq!(a.oid, RSA_OID.to_vec());
    assert_eq!(a.params, Some(vec![5u8, 0]));
}

#[test]
fn rsa_alg_ids_pick_their_oids() {
    let r = rsa_encryption();
    assert_eq!(r.oid, RSA_OID.to_vec());
    assert_eq!(r.params, Some(vec![5u8, 0]));
    let p = rsapss_encryption();
    assert_eq!(p.oid, PSS_OID.to_vec());
    assert_eq!(p.params, Some(vec![5u8, 0]));
}

#[test]
fn ec_alg_id_embeds_curve_oid() {
    let a = ec_encryption(&P256_OID).unwrap();
    assert_eq!(a.oid, vec![42u8, 134, 72, 206, 61, 2, 1]);
    let mut expected = vec![6u8, 8];
    expected.extend_from_slice(&P256_OID);
    assert_eq!(a.params, Some(expected));
}

#[test]
fn long_form_oid_param_lengths() {
    let medium = vec![1u8; 128];
    let a = alg_id_with_oid_param(RSA_OID.to_vec(), &medium).unwrap();
    let mut expected = vec![6u8, 0x81, 128];
    expected.extend_from_slice(&medium);
    assert_eq!(a.params, Some(expected));

    let large = vec![2u8; 0x1234];
    let a = alg_id_with_oid_param(RSA_OID.to_vec(), &large).unwrap();
    let mut expected = vec![6u8, 0x82, 0x12, 0x34];
    expected.extend_from_slice(&large);
    assert_eq!(a.params, Some(expected));
}

#[test]
fn oversized_oid_param_is_rejected() {
    let long = vec![1u8; 65536];
    assert_eq!(alg_id_with_oid_param(RSA_OID.to_vec(), &long).unwrap_err(), Error::NotSupported);
}

#[test]
fn alg_params_returns_parameter_bytes() {
    let a = rsa_encryption();
    assert_eq!(alg_params(&a), Some(vec![5u8, 0]));
    let bare = alg_id_with_oid_param(RSA_OID.to_vec(), &[]).unwrap();
    assert_eq!(alg_params(&bare), Some(vec![6u8, 0]));
}

#[test]
fn oid_table_maps_every_known_algorithm() {
    assert_eq!(alg_from_oid(&RSA_OID), Some(Alg::Rsa));
    assert_eq!(alg_from_oid(&PSS_OID), Some(Alg::Rsa));
    assert_eq!(alg_from_oid(&[42, 134, 72, 206, 61, 2, 1]), Some(Alg::Ecdsa));
    assert_eq!(alg_from_oid(&[43, 101, 110]), Some(Alg::X25519));
    assert_eq!(alg_from_oid(&[43, 101, 111]), Some(Alg::X448));
    assert_eq!(alg_from_oid(&[43, 101, 112]), Some(Alg::EdDsa25519));
    assert_eq!(alg_from_oid(&[43, 101, 113]), Some(Alg::EdDsa448));
    assert_eq!(alg_from_oid(&[43, 101, 114]), Some(Alg::EdDsa25519Ph));
    assert_eq!(alg_from_oid(&[43, 101, 115]), Some(Alg::EdDsa448Ph));
    assert_eq!(alg_from_oid(&P256_OID), None);
    assert_eq!(alg_from_oid(&[]), None);
}

#[test]
fn oid_rendering_names_known_identifiers() {
    assert_eq!(oid_to_str(&RSA_OID), "rsaEncryption: 1.2.840.113549.1.1.1");
    assert_eq!(oid_to_str(&P256_OID), "prime256v1: 1.2.840.10045.3.1.7");
    assert_eq!(oid_to_str(&[1, 2, 3]), "Unknown OID");
}

#[test]
fn key_bits_is_eight_per_byte() {
    assert_eq!(key_bits(256), Some(2048));
    assert_eq!(key_bits(512), Some(4096));
    assert_eq!(key_bits(1), Some(8));
    assert_eq!(key_bits(0), None);
    assert_eq!(key_bits(u32::MAX), None);
}

#[test]
fn accepted_name_lists() {
    assert_eq!(Alg::all().len(), 11);
    assert_eq!(Alg::all()[0], "RSA");
    assert_eq!(KeyType::all(), vec!["PUBLIC", "PRIVATE", "KEYPAIR"]);
    assert_eq!(Format::all(), vec!["PKCS1", "PKCS8", "SPKI", "SEC1"]);
    assert_eq!(Encoding::all(), vec!["PEM", "DER", "JWK"]);
}

#[test]
fn builders_set_their_fields() {
    let ki = KeyInfo::new()
        .with_alg(Alg::Rsa)
        .with_format(Format::PKCS1)
        .with_key_type(KeyType::Private)
        .with_encoding(Encoding::PEM)
        .with_key_length(2048)
        .with_bytes(&[1, 2, 3]);
    assert_eq!(ki.alg, Alg::Rsa);
    assert_eq!(ki.format, Format::PKCS1);
    assert_eq!(ki.key_type, KeyType::Private);
    assert_eq!(ki.encoding, Encoding::PEM);
    assert_eq!(ki.key_length, Some(2048));
    assert_eq!(ki.bytes, Some(vec![1, 2, 3]));
    assert_eq!(ki.oid, None);
    assert_eq!(ki.params, None);
}

#[test]
fn zero_key_length_is_ignored() {
    let ki = KeyInfo::new().with_key_length(0);
    assert_eq!(ki.key_length, None);
    let ki = KeyInfo::new().with_key_length(2048).with_key_length(0);
    assert_eq!(ki.key_length, Some(2048));
}

#[test]
fn with_alg_id_copies_identifier_and_params() {
    let a = rsa_encryption();
    let ki = KeyInfo::new().with_alg_id(&a);
    assert_eq!(ki.alg, Alg::Rsa);
    assert_eq!(ki.oid, Some(RSA_OID.to_vec()));
    assert_eq!(ki.params, Some(vec![5u8, 0]));
    let unknown = alg_id_any(vec![9u8, 9, 9]);
    let ki = KeyInfo::new().with_alg(Alg::Ecdsa).with_alg_id(&unknown);
    assert_eq!(ki.alg, Alg::Ecdsa);
    assert_eq!(ki.oid, Some(vec![9u8, 9, 9]));
}

#[test]
fn scrub_discards_key_material() {
    let mut ki = KeyInfo::new().with_bytes(&[7u8; 32]);
    assert!(ki.bytes.is_some());
    ki.scrub();
    assert_eq!(ki.bytes, None);
    ki.scrub();
    assert_eq!(ki.bytes, None);
}

#[test]
fn fresh_app_state_defaults() {
    let st = AppState::new();
    assert_eq!(st.encoding, Encoding::PEM);
    assert_eq!(st.command, Command::Convert);
    assert_eq!(st.alg, None);
    assert_eq!(st.key_type, None);
    assert_eq!(st.format, None);
    assert!(!st.encrypted);
    assert_eq!(st.alg().unwrap_err(), Error::MissingAlg);
    let st = AppState::new();
    assert_eq!(st.format().unwrap_err(), Error::MissingFormat);
    let st = AppState::new();
    assert_eq!(st.encoding().unwrap(), Encoding::PEM);
    let st: AppState = Default::default();
    assert_eq!(st.command, Command::Convert);
}

#[test]
fn resolve_defaults_fills_only_unset_fields() {
    let ki = KeyInfo::new()
        .with_alg(Alg::Rsa)
        .with_format(Format::PKCS1)
        .with_key_type(KeyType::Private);
    let mut st = AppState::new();
    st.key_type = Some(KeyType::Public);
    st.resolve_defaults(&ki);
    assert_eq!(st.alg, Some(Alg::Rsa));
    assert_eq!(st.format, Some(Format::PKCS1));
    assert_eq!(st.key_type, Some(KeyType::Public));
}

#[test]
fn key_type_gate() {
    assert_eq!(
        verify_key_types(KeyType::Public, KeyType::Private).unwrap_err(),
        Error::TypeMismatch
    );
    assert_eq!(
        verify_key_types(KeyType::Public, KeyType::Unknown).unwrap_err(),
        Error::TypeMismatch
    );
    assert!(verify_key_types(KeyType::Public, KeyType::Public).is_ok());
    assert!(verify_key_types(KeyType::Private, KeyType::Public).is_ok());
    assert!(verify_key_types(KeyType::Private, KeyType::Private).is_ok());
}

#[test]
fn algorithm_families() {
    assert!(same_family(Alg::Rsa, Alg::RsaSsaPss));
    assert!(same_family(Alg::RsaSsaPss, Alg::Rsa));
    assert!(same_family(Alg::Ecdsa, Alg::Ecdsa));
    assert!(!same_family(Alg::Rsa, Alg::Ecdsa));
    assert!(!same_family(Alg::Ecdsa, Alg::EdDsa25519));
    assert!(!same_family(Alg::X25519, Alg::X448));
}

#[test]
fn keypair_holds_material() {
    let kp = KeyPair::new(Some(vec![1, 2]), None);
    assert_eq!(kp.private_key, Some(vec![1, 2]));
    assert_eq!(kp.public_key, None);
}

#[test]
fn describe_renders_basic_fields() {
    let ki = KeyInfo::new()
        .with_key_type(KeyType::Private)
        .with_encoding(Encoding::PEM)
        .with_format(Format::PKCS1)
        .with_alg(Alg::Rsa)
        .with_key_length(2048);
    assert_eq!(
        describe(&ki),
        "Key Type: Private\nEncoding: PEM\nFormat: PKCS1\nAlgorithm: rsaEncryption\nKey Length: 2048\n"
    );
}

#[test]
fn describe_renders_algorithm_identifier() {
    let ki = KeyInfo::new()
        .with_key_type(KeyType::Public)
        .with_encoding(Encoding::DER)
        .with_format(Format::SPKI)
        .with_alg(Alg::Rsa)
        .with_oid(&RSA_OID)
        .with_params(&[5, 0]);
    assert_eq!(
        describe(&ki),
        "Key Type: Public\nEncoding: DER\nFormat: SPKI\nAlgorithm: rsaEncryption\nAlgorithm Identifier\n\tObject Identifier: rsaEncryption: 1.2.840.113549.1.1.1\n"
    );
}

#[test]
fn describe_renders_curve_parameters() {
    let mut params = vec![6u8, 8];
    params.extend_from_slice(&P256_OID);
    let ki = KeyInfo::new()
        .with_key_type(KeyType::Private)
        .with_encoding(Encoding::PEM)
        .with_format(Format::SEC1)
        .with_alg(Alg::Ecdsa)
        .with_oid(&[42, 134, 72, 206, 61, 2, 1])
        .with_params(&params);
    assert_eq!(
        describe(&ki),
        "Key Type: Private\nEncoding: PEM\nFormat: SEC1\nAlgorithm: id-ecPublicKey\nAlgorithm Identifier\n\tObject Identifier: id-ecPublicKey: 1.2.840.10045.2.1\n\tParameters: OID prime256v1: 1.2.840.10045.3.1.7\n\n"
    );
}

#[test]
fn describe_marks_unreadable_parameters() {
    let ki = KeyInfo::new()
        .with_key_type(KeyType::Public)
        .with_encoding(Encoding::DER)
        .with_format(Format::SPKI)
        .with_alg(Alg::Unknown)
        .with_oid(&[1, 2, 3])
        .with_params(&[2, 1, 0]);
    assert_eq!(
        describe(&ki),
        "Key Type: Public\nEncoding: DER\nFormat: SPKI\nAlgorithm: Unknown\nAlgorithm Identifier\n\tObject Identifier: Unknown OID\n\tParameters: Unknown\n\n"
    );
}
