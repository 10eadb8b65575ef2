//! Human-readable rendering of a classified key's metadata.
//!
//! [`describe`] produces the multi-line text shown for a key: its key
//! type, encoding, format, algorithm, bit length when known, and the
//! algorithm identifier's object identifier and parameters when
//! present. Only the two fixed parameter shapes are interpreted: an
//! ASN.1 NULL and an embedded object identifier naming a curve.
use vstd::prelude::*;
use vstd::string::StringExecFns;

use crate::alg_id::spec_null_param;
use crate::bytes_util::bytes_eq;
use crate::key_info::{Alg, Encoding, Format, KeyInfo, KeyInfoView, KeyType};
use crate::oids::{oid_to_str, spec_oid_str};

verus! {

/// The display name of a key type.
pub open spec fn spec_key_type_str(k: KeyType) -> Seq<char> {
    match k {
        KeyType::Unknown => "Unknown"@,
        KeyType::Public => "Public"@,
        KeyType::Private => "Private"@,
        KeyType::KeyPair => "KeyPair"@,
    }
}

/// The display name of an encoding.
pub open spec fn spec_encoding_str(e: Encoding) -> Seq<char> {
    match e {
        Encoding::Unknown => "Unknown"@,
        Encoding::PEM => "PEM"@,
        Encoding::DER => "DER"@,
        Encoding::JWK => "JWK"@,
    }
}

/// The display name of a format.
pub open spec fn spec_format_str(f: Format) -> Seq<char> {
    match f {
        Format::Unknown => "Unknown"@,
        Format::PKCS1 => "PKCS1"@,
        Format::PKCS8 => "PKCS8"@,
        Format::SPKI => "SPKI"@,
        Format::SEC1 => "SEC1"@,
    }
}

/// The display name of an algorithm.
pub open spec fn spec_alg_str(a: Alg) -> Seq<char> {
    match a {
        Alg::Unknown => "Unknown"@,
        Alg::Rsa => "rsaEncryption"@,
        Alg::RsaSsaPss => "rsassaPss"@,
        Alg::Ecdsa => "id-ecPublicKey"@,
        Alg::X25519 => "id-X25519"@,
        Alg::X448 => "id-X448"@,
        Alg::EdDsa25519 => "id-EdDSA25519"@,
        Alg::EdDsa448 => "id-EdDSA448"@,
        Alg::EdDsa25519Ph => "id-EdDSA25519-ph"@,
        Alg::EdDsa448Ph => "id-EdDSA448-ph"@,
    }
}

/// The character of a single decimal digit.
pub open spec fn spec_digit_char(d: nat) -> char {
    if d == 0 {
        '0'
    } else if d == 1 {
        '1'
    } else if d == 2 {
        '2'
    } else if d == 3 {
        '3'
    } else if d == 4 {
        '4'
    } else if d == 5 {
        '5'
    } else if d == 6 {
        '6'
    } else if d == 7 {
        '7'
    } else if d == 8 {
        '8'
    } else {
        '9'
    }
}

/// The decimal rendering of a natural number, most significant digit
/// first.
pub open spec fn spec_dec_digits(n: nat) -> Seq<char>
    decreases n,
{
    if n < 10 {
        seq![spec_digit_char(n)]
    } else {
        spec_dec_digits(n / 10) + seq![spec_digit_char(n % 10)]
    }
}

/// The display name of a key type.
pub fn key_type_str(k: KeyType) -> (r: &'static str)
    ensures
        r@ == spec_key_type_str(k),
{
    match k {
        KeyType::Unknown => "Unknown",
        KeyType::Public => "Public",
        KeyType::Private => "Private",
        KeyType::KeyPair => "KeyPair",
    }
}

/// The display name of an encoding.
pub fn encoding_str(e: Encoding) -> (r: &'static str)
    ensures
        r@ == spec_encoding_str(e),
{
    match e {
        Encoding::Unknown => "Unknown",
        Encoding::PEM => "PEM",
        Encoding::DER => "DER",
        Encoding::JWK => "JWK",
    }
}

/// The display name of a format.
pub fn format_str(f: Format) -> (r: &'static str)
    ensures
        r@ == spec_format_str(f),
{
    match f {
        Format::Unknown => "Unknown",
        Format::PKCS1 => "PKCS1",
        Format::PKCS8 => "PKCS8",
        Format::SPKI => "SPKI",
        Format::SEC1 => "SEC1",
    }
}

/// The display name of an algorithm.
pub fn alg_str(a: Alg) -> (r: &'static str)
    ensures
        r@ == spec_alg_str(a),
{
    match a {
        Alg::Unknown => "Unknown",
        Alg::Rsa => "rsaEncryption",
        Alg::RsaSsaPss => "rsassaPss",
        Alg::Ecdsa => "id-ecPublicKey",
        Alg::X25519 => "id-X25519",
        Alg::X448 => "id-X448",
        Alg::EdDsa25519 => "id-EdDSA25519",
        Alg::EdDsa448 => "id-EdDSA448",
        Alg::EdDsa25519Ph => "id-EdDSA25519-ph",
        Alg::EdDsa448Ph => "id-EdDSA448-ph",
    }
}

/// The text of a single decimal digit.
fn digit_str(d: u32) -> (r: &'static str)
    requires
        d < 10,
    ensures
        r@ == seq![spec_digit_char(d as nat)],
{
    let r: &'static str = if d == 0 {
        "0"
    } else if d == 1 {
        "1"
    } else if d == 2 {
        "2"
    } else if d == 3 {
        "3"
    } else if d == 4 {
        "4"
    } else if d == 5 {
        "5"
    } else if d == 6 {
        "6"
    } else if d == 7 {
        "7"
    } else if d == 8 {
        "8"
    } else {
        "9"
    };
    proof {
        reveal_strlit("0");
        reveal_strlit("1");
        reveal_strlit("2");
        reveal_strlit("3");
        reveal_strlit("4");
        reveal_strlit("5");
        reveal_strlit("6");
        reveal_strlit("7");
        reveal_strlit("8");
        reveal_strlit("9");
    }
    r
}

/// Append the decimal rendering of a number.
fn push_decimal(s: &mut String, n: u32)
    ensures
        final(s)@ == old(s)@ + spec_dec_digits(n as nat),
    decreases n,
{
    if n < 10 {
        s.append(digit_str(n));
        proof {
            assert(final(s)@ =~= old(s)@ + spec_dec_digits(n as nat));
        }
    } else {
        push_decimal(s, n / 10);
        s.append(digit_str(n % 10));
        proof {
            assert(final(s)@ =~= old(s)@ + spec_dec_digits(n as nat));
        }
    }
}

/// Whether parameter bytes have the embedded object identifier shape:
/// an object identifier tag, a short-form length, and that many
/// content bytes.
pub open spec fn spec_is_oid_param(p: Seq<u8>) -> bool {
    p.len() >= 2 && p[0] == 6 && p[1] as int == p.len() - 2
}

/// The content bytes of an embedded object identifier parameter.
pub open spec fn spec_oid_param_content(p: Seq<u8>) -> Seq<u8> {
    p.subrange(2, p.len() as int)
}

/// The rendering of an algorithm identifier's parameters: the named
/// object identifier for the embedded object identifier shape, nothing
/// for an ASN.1 NULL or absent parameters, a fixed marker otherwise.
pub open spec fn spec_params_str(params: Option<Seq<u8>>) -> Seq<char> {
    match params {
        None => Seq::<char>::empty(),
        Some(p) => if spec_is_oid_param(p) {
            "\n\tParameters: OID "@ + spec_oid_str(spec_oid_param_content(p)) + "\n"@
        } else if p == spec_null_param() {
            Seq::<char>::empty()
        } else {
            "\n\tParameters: Unknown\n"@
        },
    }
}

/// The rendering of the algorithm identifier section: empty without an
/// object identifier.
pub open spec fn spec_alg_id_str(oid: Option<Seq<u8>>, params: Option<Seq<u8>>) -> Seq<char> {
    match oid {
        None => Seq::<char>::empty(),
        Some(o) => "Algorithm Identifier\n\tObject Identifier: "@ + spec_oid_str(o)
            + spec_params_str(params) + "\n"@,
    }
}

/// The rendering of the key length line: empty when no length is known.
pub open spec fn spec_key_length_str(key_length: Option<u32>) -> Seq<char> {
    match key_length {
        None => Seq::<char>::empty(),
        Some(n) => "Key Length: "@ + spec_dec_digits(n as nat) + "\n"@,
    }
}

/// The full rendering of a classified key's metadata.
pub open spec fn spec_describe(ki: KeyInfoView) -> Seq<char> {
    "Key Type: "@ + spec_key_type_str(ki.key_type) + "\n"@ + "Encoding: "@ + spec_encoding_str(
        ki.encoding,
    ) + "\n"@ + "Format: "@ + spec_format_str(ki.format) + "\n"@ + "Algorithm: "@ + spec_alg_str(
        ki.alg,
    ) + "\n"@ + spec_key_length_str(ki.key_length) + spec_alg_id_str(ki.oid, ki.params)
}

/// Append the parameters rendering.
fn push_params(s: &mut String, params: &Option<Vec<u8>>)
    ensures
        final(s)@ == old(s)@ + spec_params_str(crate::key_info::opt_bytes_view(*params)),
{
    match params {
        None => {},
        Some(p) => {
            let is_oid = p.len() >= 2 && *vstd::slice::slice_index_get(p.as_slice(), 0) == 6
                && (*vstd::slice::slice_index_get(p.as_slice(), 1) as usize) == p.len() - 2;
            if is_oid {
                let content = vstd::slice::slice_subrange(p.as_slice(), 2, p.len());
                s.append("\n\tParameters: OID ");
                s.append(oid_to_str(content));
                s.append("\n");
                proof {
                    assert(final(s)@ =~= old(s)@ + spec_params_str(
                        crate::key_info::opt_bytes_view(*params),
                    ));
                }
            } else {
                let null_der: Vec<u8> = vec![5u8, 0];
                if !bytes_eq(p.as_slice(), null_der.as_slice()) {
                    s.append("\n\tParameters: Unknown\n");
                }
            }
        },
    }
}

/// Render a classified key's metadata as multi-line text: the key
/// type, encoding, format and algorithm, the key length when known,
/// and the algorithm identifier when present.
pub fn describe(key_info: &KeyInfo) -> (r: String)
    ensures
        r@ == spec_describe(key_info@),
{
    let mut s = String::new();
    s.append("Key Type: ");
    s.append(key_type_str(key_info.key_type));
    s.append("\n");
    s.append("Encoding: ");
    s.append(encoding_str(key_info.encoding));
    s.append("\n");
    s.append("Format: ");
    s.append(format_str(key_info.format));
    s.append("\n");
    s.append("Algorithm: ");
    s.append(alg_str(key_info.alg));
    s.append("\n");
    match key_info.key_length {
        Some(n) => {
            s.append("Key Length: ");
            push_decimal(&mut s, n);
            s.append("\n");
        },
        None => {},
    }
    match &key_info.oid {
        Some(o) => {
            s.append("Algorithm Identifier\n\tObject Identifier: ");
            s.append(oid_to_str(o.as_slice()));
            push_params(&mut s, &key_info.params);
            s.append("\n");
        },
        None => {},
    }
    proof {
        assert(s@ =~= spec_describe(key_info@));
    }
    s
}

} // verus!
