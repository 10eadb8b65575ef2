//! The trusted boundary with the ASN.1/DER codec crates.
//!
//! Every function here is an `external_body` wrapper around one decode,
//! decrypt or encode operation of the `pkcs1`, `pkcs8`, `sec1` or `spki`
//! crate (or of `std`/`zeroize`), converting between the crates' document
//! types and plain byte vectors. Each parse or encode result is given a
//! name by an uninterpreted spec function: the result of each operation
//! is a function of its arguments alone, so the same input always stands
//! for the same output. The rest of the crate is verified against these
//! contracts.
use vstd::prelude::*;

use der::{Decodable, Document, Encodable};
use pkcs8::DecodePrivateKey;

use crate::key_info::opt_bytes_view;

verus! {

/// The view of an optional byte slice.
pub open spec fn opt_slice_view(o: Option<&[u8]>) -> Option<Seq<u8>> {
    match o {
        Some(s) => Some(s@),
        None => None,
    }
}

/// What `std::str::from_utf8` yields on a byte buffer: its text when the
/// buffer is valid UTF-8, nothing otherwise.
pub uninterp spec fn utf8_chars(bytes: Seq<u8>) -> Option<Seq<char>>;

/// The SubjectPublicKeyInfo document a PEM text parses to: the algorithm
/// object identifier's content bytes, the DER bytes of its parameters,
/// and the public key bit string contents.
pub uninterp spec fn spki_pem_doc(text: Seq<char>) -> Option<(Seq<u8>, Option<Seq<u8>>, Seq<u8>)>;

/// The SubjectPublicKeyInfo document a DER buffer parses to.
pub uninterp spec fn spki_der_doc(bytes: Seq<u8>) -> Option<(Seq<u8>, Option<Seq<u8>>, Seq<u8>)>;

/// The PKCS1 RSAPublicKey document a PEM text parses to: the byte length
/// of the modulus, and the document's DER bytes.
pub uninterp spec fn rsa_pub_pem_doc(text: Seq<char>) -> Option<(u32, Seq<u8>)>;

/// The byte length of the modulus of the PKCS1 RSAPublicKey document a
/// DER buffer parses to.
pub uninterp spec fn rsa_pub_der_doc(bytes: Seq<u8>) -> Option<u32>;

/// The PKCS1 RSAPrivateKey document a PEM text parses to: the byte
/// length of the private exponent, and the document's DER bytes.
pub uninterp spec fn rsa_priv_pem_doc(text: Seq<char>) -> Option<(u32, Seq<u8>)>;

/// The byte length of the private exponent of the PKCS1 RSAPrivateKey
/// document a DER buffer parses to.
pub uninterp spec fn rsa_priv_der_doc(bytes: Seq<u8>) -> Option<u32>;

/// The PKCS8 PrivateKeyInfo document a PEM text parses to: the algorithm
/// object identifier's content bytes, the DER bytes of its parameters,
/// and the inner private key bytes.
pub uninterp spec fn pkcs8_pem_doc(text: Seq<char>) -> Option<(Seq<u8>, Option<Seq<u8>>, Seq<u8>)>;

/// The PKCS8 PrivateKeyInfo document a DER buffer parses to.
pub uninterp spec fn pkcs8_der_doc(bytes: Seq<u8>) -> Option<(Seq<u8>, Option<Seq<u8>>, Seq<u8>)>;

/// Whether a PEM text parses as a PKCS8 EncryptedPrivateKeyInfo document.
pub uninterp spec fn enc_pkcs8_pem_doc(text: Seq<char>) -> bool;

/// Whether a DER buffer parses as a PKCS8 EncryptedPrivateKeyInfo document.
pub uninterp spec fn enc_pkcs8_der_doc(bytes: Seq<u8>) -> bool;

/// The plain PKCS8 PrivateKeyInfo DER obtained by decrypting the
/// encrypted PKCS8 PEM text with the given password; nothing when the
/// text does not parse or the password does not decrypt it.
pub uninterp spec fn enc_pkcs8_pem_plain(text: Seq<char>, password: Seq<char>) -> Option<Seq<u8>>;

/// The plain PKCS8 PrivateKeyInfo DER obtained by decrypting the
/// encrypted PKCS8 DER buffer with the given password.
pub uninterp spec fn enc_pkcs8_der_plain(bytes: Seq<u8>, password: Seq<char>) -> Option<Seq<u8>>;

/// The SEC1 ECPrivateKey document a PEM text parses to: the named
/// curve's object identifier content bytes when present, and the
/// document's DER bytes.
pub uninterp spec fn sec1_pem_doc(text: Seq<char>) -> Option<(Option<Seq<u8>>, Seq<u8>)>;

/// The named curve of the SEC1 ECPrivateKey document a DER buffer
/// parses to.
pub uninterp spec fn sec1_der_doc(bytes: Seq<u8>) -> Option<Option<Seq<u8>>>;

/// The PEM encoding of a valid PKCS1 RSAPrivateKey DER document.
pub uninterp spec fn rsa_priv_pem_of(der: Seq<u8>) -> Option<Seq<u8>>;

/// The PEM encoding of a valid PKCS1 RSAPublicKey DER document.
pub uninterp spec fn rsa_pub_pem_of(der: Seq<u8>) -> Option<Seq<u8>>;

/// The PEM encoding of a valid SEC1 ECPrivateKey DER document.
pub uninterp spec fn sec1_pem_of(der: Seq<u8>) -> Option<Seq<u8>>;

/// The DER bytes of a PKCS8 PrivateKeyInfo wrapping the given algorithm
/// identifier (object identifier content bytes and raw parameter bytes)
/// around the given private key bytes.
pub uninterp spec fn pkcs8_wrap_der_of(
    oid: Seq<u8>,
    params: Option<Seq<u8>>,
    key: Seq<u8>,
) -> Option<Seq<u8>>;

/// The PEM encoding of the same PKCS8 PrivateKeyInfo document.
pub uninterp spec fn pkcs8_wrap_pem_of(
    oid: Seq<u8>,
    params: Option<Seq<u8>>,
    key: Seq<u8>,
) -> Option<Seq<u8>>;

/// The DER bytes of a SubjectPublicKeyInfo wrapping the given algorithm
/// identifier around the given public key bit string contents.
pub uninterp spec fn spki_wrap_der_of(
    oid: Seq<u8>,
    params: Option<Seq<u8>>,
    key: Seq<u8>,
) -> Option<Seq<u8>>;

/// The PEM encoding of the same SubjectPublicKeyInfo document.
pub uninterp spec fn spki_wrap_pem_of(
    oid: Seq<u8>,
    params: Option<Seq<u8>>,
    key: Seq<u8>,
) -> Option<Seq<u8>>;

/// Relies on `std::str::from_utf8`: yields the buffer's text exactly
/// when the buffer is valid UTF-8.
#[verifier::external_body]
pub(crate) fn utf8_text(bytes: &[u8]) -> (r: Option<&str>)
    ensures
        match r {
            Some(s) => utf8_chars(bytes@) == Some(s@),
            None => utf8_chars(bytes@) is None,
        },
{
    std::str::from_utf8(bytes).ok()
}

/// Relies on `spki::PublicKeyDocument::from_pem` and its decoding into
/// `SubjectPublicKeyInfo`.
#[verifier::external_body]
pub(crate) fn spki_from_pem(text: &str) -> (r: Option<(Vec<u8>, Option<Vec<u8>>, Vec<u8>)>)
    ensures
        match r {
            Some(t) => spki_pem_doc(text@) == Some((t.0@, opt_bytes_view(t.1), t.2@)),
            None => spki_pem_doc(text@) is None,
        },
{
    let doc = match spki::PublicKeyDocument::from_pem(text) {
        Ok(d) => d,
        Err(_) => return None,
    };
    let ski = doc.decode();
    let params = ski.algorithm.parameters.and_then(|p| p.to_vec().ok());
    Some((ski.algorithm.oid.as_bytes().to_vec(), params, ski.subject_public_key.to_vec()))
}

/// Relies on `spki::PublicKeyDocument::from_der` and its decoding into
/// `SubjectPublicKeyInfo`.
#[verifier::external_body]
pub(crate) fn spki_from_der(bytes: &[u8]) -> (r: Option<(Vec<u8>, Option<Vec<u8>>, Vec<u8>)>)
    ensures
        match r {
            Some(t) => spki_der_doc(bytes@) == Some((t.0@, opt_bytes_view(t.1), t.2@)),
            None => spki_der_doc(bytes@) is None,
        },
{
    let doc = match spki::PublicKeyDocument::from_der(bytes) {
        Ok(d) => d,
        Err(_) => return None,
    };
    let ski = doc.decode();
    let params = ski.algorithm.parameters.and_then(|p| p.to_vec().ok());
    Some((ski.algorithm.oid.as_bytes().to_vec(), params, ski.subject_public_key.to_vec()))
}

/// Relies on `pkcs1::RsaPublicKeyDocument::from_pem` and its decoding
/// into `RsaPublicKey`. The returned bytes are the document's DER.
#[verifier::external_body]
pub(crate) fn rsa_pub_from_pem(text: &str) -> (r: Option<(u32, Vec<u8>)>)
    ensures
        match r {
            Some(t) => rsa_pub_pem_doc(text@) == Some((t.0, t.1@)),
            None => rsa_pub_pem_doc(text@) is None,
        },
{
    let doc = match pkcs1::RsaPublicKeyDocument::from_pem(text) {
        Ok(d) => d,
        Err(_) => return None,
    };
    let n_len = u32::from(doc.decode().modulus.len());
    Some((n_len, doc.as_der().to_vec()))
}

/// Relies on `pkcs1::RsaPublicKeyDocument::from_der`, which accepts
/// exactly the well-formed documents and stores the given bytes.
#[verifier::external_body]
pub(crate) fn rsa_pub_from_der(bytes: &[u8]) -> (r: Option<u32>)
    ensures
        r == rsa_pub_der_doc(bytes@),
{
    let doc = match pkcs1::RsaPublicKeyDocument::from_der(bytes) {
        Ok(d) => d,
        Err(_) => return None,
    };
    Some(u32::from(doc.decode().modulus.len()))
}

/// Relies on `pkcs1::RsaPrivateKeyDocument::from_pem` and its decoding
/// into `RsaPrivateKey`. The returned bytes are the document's DER.
#[verifier::external_body]
pub(crate) fn rsa_priv_from_pem(text: &str) -> (r: Option<(u32, Vec<u8>)>)
    ensures
        match r {
            Some(t) => rsa_priv_pem_doc(text@) == Some((t.0, t.1@)),
            None => rsa_priv_pem_doc(text@) is None,
        },
{
    let doc = match pkcs1::RsaPrivateKeyDocument::from_pem(text) {
        Ok(d) => d,
        Err(_) => return None,
    };
    let d_len = u32::from(doc.decode().private_exponent.len());
    Some((d_len, doc.as_der().to_vec()))
}

/// Relies on `pkcs1::RsaPrivateKeyDocument::from_der`, which accepts
/// exactly the well-formed documents and stores the given bytes.
#[verifier::external_body]
pub(crate) fn rsa_priv_from_der(bytes: &[u8]) -> (r: Option<u32>)
    ensures
        r == rsa_priv_der_doc(bytes@),
{
    let doc = match pkcs1::RsaPrivateKeyDocument::from_der(bytes) {
        Ok(d) => d,
        Err(_) => return None,
    };
    Some(u32::from(doc.decode().private_exponent.len()))
}

/// Relies on `pkcs8::PrivateKeyDocument::from_pkcs8_pem` and its
/// decoding into `PrivateKeyInfo`.
#[verifier::external_body]
pub(crate) fn pkcs8_from_pem(text: &str) -> (r: Option<(Vec<u8>, Option<Vec<u8>>, Vec<u8>)>)
    ensures
        match r {
            Some(t) => pkcs8_pem_doc(text@) == Some((t.0@, opt_bytes_view(t.1), t.2@)),
            None => pkcs8_pem_doc(text@) is None,
        },
{
    let doc = match pkcs8::PrivateKeyDocument::from_pkcs8_pem(text) {
        Ok(d) => d,
        Err(_) => return None,
    };
    let info = doc.decode();
    let params = info.algorithm.parameters.and_then(|p| p.to_vec().ok());
    Some((info.algorithm.oid.as_bytes().to_vec(), params, info.private_key.to_vec()))
}

/// Relies on `pkcs8::PrivateKeyDocument::from_der` and its decoding into
/// `PrivateKeyInfo`.
#[verifier::external_body]
pub(crate) fn pkcs8_from_der(bytes: &[u8]) -> (r: Option<(Vec<u8>, Option<Vec<u8>>, Vec<u8>)>)
    ensures
        match r {
            Some(t) => pkcs8_der_doc(bytes@) == Some((t.0@, opt_bytes_view(t.1), t.2@)),
            None => pkcs8_der_doc(bytes@) is None,
        },
{
    let doc = match pkcs8::PrivateKeyDocument::from_der(bytes) {
        Ok(d) => d,
        Err(_) => return None,
    };
    let info = doc.decode();
    let params = info.algorithm.parameters.and_then(|p| p.to_vec().ok());
    Some((info.algorithm.oid.as_bytes().to_vec(), params, info.private_key.to_vec()))
}

/// Relies on `pkcs8::EncryptedPrivateKeyDocument::from_pem`.
#[verifier::external_body]
pub(crate) fn enc_pkcs8_pem_matches(text: &str) -> (r: bool)
    ensures
        r == enc_pkcs8_pem_doc(text@),
{
    pkcs8::EncryptedPrivateKeyDocument::from_pem(text).is_ok()
}

/// Relies on `pkcs8::EncryptedPrivateKeyDocument::from_der`.
#[verifier::external_body]
pub(crate) fn enc_pkcs8_der_matches(bytes: &[u8]) -> (r: bool)
    ensures
        r == enc_pkcs8_der_doc(bytes@),
{
    pkcs8::EncryptedPrivateKeyDocument::from_der(bytes).is_ok()
}

/// Relies on `pkcs8::EncryptedPrivateKeyDocument::from_pem` and its
/// `decrypt`, which yields a validated plain PrivateKeyInfo document.
#[verifier::external_body]
pub(crate) fn enc_pkcs8_pem_decrypt(text: &str, password: &str) -> (r: Option<Vec<u8>>)
    ensures
        match r {
            Some(v) => enc_pkcs8_pem_plain(text@, password@) == Some(v@),
            None => enc_pkcs8_pem_plain(text@, password@) is None,
        },
{
    let doc = match pkcs8::EncryptedPrivateKeyDocument::from_pem(text) {
        Ok(d) => d,
        Err(_) => return None,
    };
    match doc.decrypt(password) {
        Ok(plain) => Some(plain.as_der().to_vec()),
        Err(_) => None,
    }
}

/// Relies on `pkcs8::EncryptedPrivateKeyDocument::from_der` and its
/// `decrypt`.
#[verifier::external_body]
pub(crate) fn enc_pkcs8_der_decrypt(bytes: &[u8], password: &str) -> (r: Option<Vec<u8>>)
    ensures
        match r {
            Some(v) => enc_pkcs8_der_plain(bytes@, password@) == Some(v@),
            None => enc_pkcs8_der_plain(bytes@, password@) is None,
        },
{
    let doc = match pkcs8::EncryptedPrivateKeyDocument::from_der(bytes) {
        Ok(d) => d,
        Err(_) => return None,
    };
    match doc.decrypt(password) {
        Ok(plain) => Some(plain.as_der().to_vec()),
        Err(_) => None,
    }
}

/// Relies on `sec1::EcPrivateKeyDocument::from_pem` and its decoding
/// into `EcPrivateKey`. The returned bytes are the document's DER.
#[verifier::external_body]
pub(crate) fn sec1_from_pem(text: &str) -> (r: Option<(Option<Vec<u8>>, Vec<u8>)>)
    ensures
        match r {
            Some(t) => sec1_pem_doc(text@) == Some((opt_bytes_view(t.0), t.1@)),
            None => sec1_pem_doc(text@) is None,
        },
{
    let doc = match sec1::EcPrivateKeyDocument::from_pem(text) {
        Ok(d) => d,
        Err(_) => return None,
    };
    let curve = doc.decode().parameters.and_then(|p| p.named_curve()).map(|o| o.as_bytes().to_vec());
    Some((curve, doc.as_der().to_vec()))
}

/// Relies on `sec1::EcPrivateKeyDocument::from_der`, which accepts
/// exactly the well-formed documents and stores the given bytes.
#[verifier::external_body]
pub(crate) fn sec1_from_der(bytes: &[u8]) -> (r: Option<Option<Vec<u8>>>)
    ensures
        match r {
            Some(c) => sec1_der_doc(bytes@) == Some(opt_bytes_view(c)),
            None => sec1_der_doc(bytes@) is None,
        },
{
    let doc = match sec1::EcPrivateKeyDocument::from_der(bytes) {
        Ok(d) => d,
        Err(_) => return None,
    };
    Some(doc.decode().parameters.and_then(|p| p.named_curve()).map(|o| o.as_bytes().to_vec()))
}

/// Relies on `pkcs1::RsaPrivateKeyDocument::from_der` and the PEM
/// encoder of its `Document` impl (label `RSA PRIVATE KEY`, CRLF line
/// ending). Succeeds exactly when the DER parses and the PEM encoder
/// accepts it.
#[verifier::external_body]
pub(crate) fn rsa_priv_to_pem(der: &[u8]) -> (r: Option<Vec<u8>>)
    ensures
        match r {
            Some(v) => rsa_priv_pem_of(der@) == Some(v@) && rsa_priv_der_doc(der@) is Some,
            None => rsa_priv_pem_of(der@) is None,
        },
{
    let doc = match pkcs1::RsaPrivateKeyDocument::from_der(der) {
        Ok(d) => d,
        Err(_) => return None,
    };
    match doc.to_pem(pkcs1::LineEnding::CRLF) {
        Ok(s) => Some(s.as_bytes().to_vec()),
        Err(_) => None,
    }
}

/// Relies on `pkcs1::RsaPublicKeyDocument::from_der` and the PEM
/// encoder of its `Document` impl (label `RSA PUBLIC KEY`, CRLF line
/// ending).
#[verifier::external_body]
pub(crate) fn rsa_pub_to_pem(der: &[u8]) -> (r: Option<Vec<u8>>)
    ensures
        match r {
            Some(v) => rsa_pub_pem_of(der@) == Some(v@) && rsa_pub_der_doc(der@) is Some,
            None => rsa_pub_pem_of(der@) is None,
        },
{
    let doc = match pkcs1::RsaPublicKeyDocument::from_der(der) {
        Ok(d) => d,
        Err(_) => return None,
    };
    match doc.to_pem(pkcs1::LineEnding::CRLF) {
        Ok(s) => Some(s.as_bytes().to_vec()),
        Err(_) => None,
    }
}

/// Relies on `sec1::EcPrivateKeyDocument::from_der` and the PEM encoder
/// of its `Document` impl (label `EC PRIVATE KEY`, CRLF line ending).
#[verifier::external_body]
pub(crate) fn sec1_to_pem(der: &[u8]) -> (r: Option<Vec<u8>>)
    ensures
        match r {
            Some(v) => sec1_pem_of(der@) == Some(v@) && sec1_der_doc(der@) is Some,
            None => sec1_pem_of(der@) is None,
        },
{
    let doc = match sec1::EcPrivateKeyDocument::from_der(der) {
        Ok(d) => d,
        Err(_) => return None,
    };
    match doc.to_pem(sec1::LineEnding::CRLF) {
        Ok(s) => Some(s.as_bytes().to_vec()),
        Err(_) => None,
    }
}

/// Relies on `pkcs8::PrivateKeyInfo::to_der`: builds a PrivateKeyInfo
/// from the given algorithm identifier parts and key bytes, and encodes
/// it as DER.
#[verifier::external_body]
pub(crate) fn pkcs8_wrap_der(oid: &[u8], params: Option<&[u8]>, key: &[u8]) -> (r: Option<Vec<u8>>)
    ensures
        match r {
            Some(v) => pkcs8_wrap_der_of(oid@, opt_slice_view(params), key@) == Some(v@),
            None => pkcs8_wrap_der_of(oid@, opt_slice_view(params), key@) is None,
        },
{
    let o = pkcs8::ObjectIdentifier::from_bytes(oid).ok()?;
    let any = match params {
        Some(p) => Some(der::Any::from_der(p).ok()?),
        None => None,
    };
    let info = pkcs8::PrivateKeyInfo::new(pkcs8::AlgorithmIdentifier { oid: o, parameters: any }, key);
    info.to_der().ok().map(|doc| doc.as_der().to_vec())
}

/// Relies on `pkcs8::PrivateKeyInfo::to_pem` (label `PRIVATE KEY`, CRLF
/// line ending) for the same PrivateKeyInfo document.
#[verifier::external_body]
pub(crate) fn pkcs8_wrap_pem(oid: &[u8], params: Option<&[u8]>, key: &[u8]) -> (r: Option<Vec<u8>>)
    ensures
        match r {
            Some(v) => pkcs8_wrap_pem_of(oid@, opt_slice_view(params), key@) == Some(v@),
            None => pkcs8_wrap_pem_of(oid@, opt_slice_view(params), key@) is None,
        },
{
    let o = pkcs8::ObjectIdentifier::from_bytes(oid).ok()?;
    let any = match params {
        Some(p) => Some(der::Any::from_der(p).ok()?),
        None => None,
    };
    let info = pkcs8::PrivateKeyInfo::new(pkcs8::AlgorithmIdentifier { oid: o, parameters: any }, key);
    info.to_pem(pkcs8::LineEnding::CRLF).ok().map(|s| s.as_bytes().to_vec())
}

/// Relies on the `TryFrom<SubjectPublicKeyInfo>` DER encoder of
/// `spki::PublicKeyDocument`: builds a SubjectPublicKeyInfo from the
/// given algorithm identifier parts and key bit string contents, and
/// encodes it as DER.
#[verifier::external_body]
pub(crate) fn spki_wrap_der(oid: &[u8], params: Option<&[u8]>, key: &[u8]) -> (r: Option<Vec<u8>>)
    ensures
        match r {
            Some(v) => spki_wrap_der_of(oid@, opt_slice_view(params), key@) == Some(v@),
            None => spki_wrap_der_of(oid@, opt_slice_view(params), key@) is None,
        },
{
    let o = pkcs8::ObjectIdentifier::from_bytes(oid).ok()?;
    let any = match params {
        Some(p) => Some(der::Any::from_der(p).ok()?),
        None => None,
    };
    let ski = spki::SubjectPublicKeyInfo {
        algorithm: pkcs8::AlgorithmIdentifier { oid: o, parameters: any },
        subject_public_key: key,
    };
    let doc: Result<spki::PublicKeyDocument, _> = ski.try_into();
    doc.ok().map(|d| d.as_der().to_vec())
}

/// Relies on the same SubjectPublicKeyInfo encoder followed by the PEM
/// encoder of `spki::PublicKeyDocument` (label `PUBLIC KEY`, CRLF line
/// ending).
#[verifier::external_body]
pub(crate) fn spki_wrap_pem(oid: &[u8], params: Option<&[u8]>, key: &[u8]) -> (r: Option<Vec<u8>>)
    ensures
        match r {
            Some(v) => spki_wrap_pem_of(oid@, opt_slice_view(params), key@) == Some(v@),
            None => spki_wrap_pem_of(oid@, opt_slice_view(params), key@) is None,
        },
{
    let o = pkcs8::ObjectIdentifier::from_bytes(oid).ok()?;
    let any = match params {
        Some(p) => Some(der::Any::from_der(p).ok()?),
        None => None,
    };
    let ski = spki::SubjectPublicKeyInfo {
        algorithm: pkcs8::AlgorithmIdentifier { oid: o, parameters: any },
        subject_public_key: key,
    };
    let doc: Result<spki::PublicKeyDocument, _> = ski.try_into();
    doc.ok().and_then(|d| d.to_pem(pkcs8::LineEnding::CRLF).ok()).map(|s| s.as_bytes().to_vec())
}

/// Relies on `zeroize::Zeroize` for `Vec<u8>`: the buffer's memory is
/// overwritten with zeroes and the vector is cleared.
#[verifier::external_body]
pub(crate) fn wipe_bytes(v: &mut Vec<u8>)
    ensures
        final(v)@.len() == 0,
{
    zeroize::Zeroize::zeroize(v);
}

} // verus!
