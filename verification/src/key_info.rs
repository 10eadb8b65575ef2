//! Key metadata: the classification of an input key buffer.
//!
//! A [`KeyInfo`] records everything discovery learned about a key: its
//! encoding, container format, key type, algorithm, bit length, the raw
//! algorithm identifier from the source container, and the inner key bytes.
use vstd::prelude::*;

use crate::alg_id::AlgId;
use crate::oids;

verus! {

/// Supported key algorithms.
#[derive(Clone, Copy, Debug, PartialEq, Eq, Structural)]
pub enum Alg {
    Unknown,
    Rsa,
    RsaSsaPss,
    Ecdsa,
    X25519,
    X448,
    EdDsa25519,
    EdDsa448,
    EdDsa25519Ph,
    EdDsa448Ph,
}

impl Alg {
    /// The algorithm names accepted on a conversion request.
    pub fn all() -> (r: Vec<&'static str>)
        ensures
            r.deep_view() =~= seq![
                "RSA"@,
                "RSASSA_PSS"@,
                "ECDSA"@,
                "X25519"@,
                "X448"@,
                "EDDSA448"@,
                "ED_DSA448"@,
                "EDDSA448PH"@,
                "ED_DSA448_PH"@,
                "EDDSA25519PH"@,
                "ED_DSA25519_PH"@,
            ],
    {
        vec![
            "RSA",
            "RSASSA_PSS",
            "ECDSA",
            "X25519",
            "X448",
            "EDDSA448",
            "ED_DSA448",
            "EDDSA448PH",
            "ED_DSA448_PH",
            "EDDSA25519PH",
            "ED_DSA25519_PH",
        ]
    }
}

/// Supported key types, such as Private and Public.
#[derive(Clone, Copy, Debug, PartialEq, Eq, Structural)]
pub enum KeyType {
    Unknown,
    Public,
    Private,
    KeyPair,
}

impl KeyType {
    /// The key type names accepted on a conversion request.
    pub fn all() -> (r: Vec<&'static str>)
        ensures
            r.deep_view() =~= seq!["PUBLIC"@, "PRIVATE"@, "KEYPAIR"@],
    {
        vec!["PUBLIC", "PRIVATE", "KEYPAIR"]
    }
}

/// Supported document formats, such as PKCS8.
#[derive(Clone, Copy, Debug, PartialEq, Eq, Structural)]
pub enum Format {
    Unknown,
    PKCS1,
    PKCS8,
    SPKI,
    SEC1,
}

impl Format {
    /// The format names accepted on a conversion request.
    pub fn all() -> (r: Vec<&'static str>)
        ensures
            r.deep_view() =~= seq!["PKCS1"@, "PKCS8"@, "SPKI"@, "SEC1"@],
    {
        vec!["PKCS1", "PKCS8", "SPKI", "SEC1"]
    }
}

/// Supported file encodings, such as PEM and DER.
#[derive(Clone, Copy, Debug, PartialEq, Eq, Structural)]
pub enum Encoding {
    Unknown,
    PEM,
    DER,
    JWK,
}

impl Encoding {
    /// The encoding names accepted on a conversion request.
    pub fn all() -> (r: Vec<&'static str>)
        ensures
            r.deep_view() =~= seq!["PEM"@, "DER"@, "JWK"@],
    {
        vec!["PEM", "DER", "JWK"]
    }
}

/// The mathematical view of a [`KeyInfo`]: byte buffers abstracted as
/// sequences.
#[verifier::ext_equal]
pub ghost struct KeyInfoView {
    pub encoding: Encoding,
    pub format: Format,
    pub key_type: KeyType,
    pub key_length: Option<u32>,
    pub alg: Alg,
    pub oid: Option<Seq<u8>>,
    pub params: Option<Seq<u8>>,
    pub bytes: Option<Seq<u8>>,
}

/// The view of an optional byte buffer.
pub open spec fn opt_bytes_view(o: Option<Vec<u8>>) -> Option<Seq<u8>> {
    match o {
        Some(v) => Some(v@),
        None => None,
    }
}

/// The key length in bits derived from a byte length: eight bits per
/// byte. A zero byte length yields no key length, and so does a byte
/// length whose bit count would not fit in 32 bits.
pub open spec fn spec_key_bits(byte_len: u32) -> Option<u32> {
    if 0 < byte_len && byte_len * 8 <= u32::MAX {
        Some((byte_len * 8) as u32)
    } else {
        None
    }
}

/// Compute the key length in bits from a byte length.
pub fn key_bits(byte_len: u32) -> (r: Option<u32>)
    ensures
        r == spec_key_bits(byte_len),
{
    if 0 < byte_len && byte_len <= u32::MAX / 8 {
        Some(byte_len * 8)
    } else {
        None
    }
}

/// Metadata associated with the input key.
#[derive(Clone, Debug)]
pub struct KeyInfo {
    /// File encoding type, such as PEM or DER.
    pub encoding: Encoding,
    /// Document format, such as PKCS8, PKCS1, SEC1, etc.
    pub format: Format,
    /// Public or private.
    pub key_type: KeyType,
    /// Length in bits - such as 2048.
    pub key_length: Option<u32>,
    /// Key algorithm, such as RSA or ECDSA.
    pub alg: Alg,
    /// For PKCS8 and SPKI, the algorithm identifier's object identifier,
    /// held as its DER content bytes.
    pub oid: Option<Vec<u8>>,
    /// Raw parameter bytes associated with the algorithm identifier, such
    /// as ECDSA curves.
    pub params: Option<Vec<u8>>,
    /// The inner key bytes from the formatted document; not the entire
    /// document.
    pub bytes: Option<Vec<u8>>,
}

impl View for KeyInfo {
    type V = KeyInfoView;

    open spec fn view(&self) -> KeyInfoView {
        KeyInfoView {
            encoding: self.encoding,
            format: self.format,
            key_type: self.key_type,
            key_length: self.key_length,
            alg: self.alg,
            oid: opt_bytes_view(self.oid),
            params: opt_bytes_view(self.params),
            bytes: opt_bytes_view(self.bytes),
        }
    }
}

/// The view of a freshly constructed, unclassified [`KeyInfo`].
pub open spec fn spec_key_info_new() -> KeyInfoView {
    KeyInfoView {
        encoding: Encoding::Unknown,
        format: Format::Unknown,
        key_type: KeyType::Unknown,
        key_length: None,
        alg: Alg::Unknown,
        oid: None,
        params: None,
        bytes: None,
    }
}

impl KeyInfo {
    /// A new, fully unclassified record.
    pub fn new() -> (r: Self)
        ensures
            r@ =~= spec_key_info_new(),
    {
        Self {
            encoding: Encoding::Unknown,
            format: Format::Unknown,
            key_type: KeyType::Unknown,
            key_length: None,
            alg: Alg::Unknown,
            oid: None,
            params: None,
            bytes: None,
        }
    }

    /// Set the encoding.
    pub fn set_encoding(&mut self, encoding: Encoding)
        ensures
            final(self)@ =~= (KeyInfoView { encoding, ..old(self)@ }),
    {
        self.encoding = encoding;
    }

    /// Chainable variant to set the encoding.
    pub fn with_encoding(self, encoding: Encoding) -> (r: Self)
        ensures
            r@ =~= (KeyInfoView { encoding, ..self@ }),
    {
        let mut s = self;
        s.set_encoding(encoding);
        s
    }

    /// Set the format.
    pub fn set_format(&mut self, format: Format)
        ensures
            final(self)@ =~= (KeyInfoView { format, ..old(self)@ }),
    {
        self.format = format;
    }

    /// Chainable variant to set the format.
    pub fn with_format(self, format: Format) -> (r: Self)
        ensures
            r@ =~= (KeyInfoView { format, ..self@ }),
    {
        let mut s = self;
        s.set_format(format);
        s
    }

    /// Set the key type.
    pub fn set_key_type(&mut self, key_type: KeyType)
        ensures
            final(self)@ =~= (KeyInfoView { key_type, ..old(self)@ }),
    {
        self.key_type = key_type;
    }

    /// Chainable variant to set the key type.
    pub fn with_key_type(self, key_type: KeyType) -> (r: Self)
        ensures
            r@ =~= (KeyInfoView { key_type, ..self@ }),
    {
        let mut s = self;
        s.set_key_type(key_type);
        s
    }

    /// Set the key length; a length of zero is ignored.
    pub fn set_key_length(&mut self, key_length: u32)
        ensures
            final(self)@ =~= (KeyInfoView {
                key_length: if key_length > 0 { Some(key_length) } else { old(self)@.key_length },
                ..old(self)@
            }),
    {
        if key_length > 0 {
            self.key_length = Some(key_length);
        }
    }

    /// Chainable variant to set the key length.
    pub fn with_key_length(self, key_length: u32) -> (r: Self)
        ensures
            r@ =~= (KeyInfoView {
                key_length: if key_length > 0 { Some(key_length) } else { self@.key_length },
                ..self@
            }),
    {
        let mut s = self;
        s.set_key_length(key_length);
        s
    }

    /// Set the algorithm.
    pub fn set_alg(&mut self, alg: Alg)
        ensures
            final(self)@ =~= (KeyInfoView { alg, ..old(self)@ }),
    {
        self.alg = alg;
    }

    /// Chainable variant to set the algorithm.
    pub fn with_alg(self, alg: Alg) -> (r: Self)
        ensures
            r@ =~= (KeyInfoView { alg, ..self@ }),
    {
        let mut s = self;
        s.set_alg(alg);
        s
    }

    /// Set the inner key bytes.
    pub fn set_bytes(&mut self, bytes: &[u8])
        ensures
            final(self)@ =~= (KeyInfoView { bytes: Some(bytes@), ..old(self)@ }),
    {
        self.bytes = Some(vstd::slice::slice_to_vec(bytes));
    }

    /// Chainable variant to set the inner key bytes.
    pub fn with_bytes(self, bytes: &[u8]) -> (r: Self)
        ensures
            r@ =~= (KeyInfoView { bytes: Some(bytes@), ..self@ }),
    {
        let mut s = self;
        s.set_bytes(bytes);
        s
    }

    /// Set the object identifier from PKCS8 and SPKI formats.
    pub fn set_oid(&mut self, oid: &[u8])
        ensures
            final(self)@ =~= (KeyInfoView { oid: Some(oid@), ..old(self)@ }),
    {
        self.oid = Some(vstd::slice::slice_to_vec(oid));
    }

    /// Chainable variant to set the object identifier.
    pub fn with_oid(self, oid: &[u8]) -> (r: Self)
        ensures
            r@ =~= (KeyInfoView { oid: Some(oid@), ..self@ }),
    {
        let mut s = self;
        s.set_oid(oid);
        s
    }

    /// Set the parameter bytes of an algorithm identifier.
    pub fn set_params(&mut self, params: &[u8])
        ensures
            final(self)@ =~= (KeyInfoView { params: Some(params@), ..old(self)@ }),
    {
        self.params = Some(vstd::slice::slice_to_vec(params));
    }

    /// Chainable variant to set the parameter bytes.
    pub fn with_params(self, params: &[u8]) -> (r: Self)
        ensures
            r@ =~= (KeyInfoView { params: Some(params@), ..self@ }),
    {
        let mut s = self;
        s.set_params(params);
        s
    }

    /// Securely discard the key material: the buffer is overwritten
    /// with zeroes before being dropped. Call on every exit path once
    /// the record is no longer needed; the other fields are untouched.
    pub fn scrub(&mut self)
        ensures
            final(self)@ =~= (KeyInfoView { bytes: None, ..old(self)@ }),
    {
        let taken = self.bytes.take();
        match taken {
            Some(mut b) => {
                crate::codec::wipe_bytes(&mut b);
            },
            None => {},
        }
    }

    /// Chainable variant to set the algorithm, object identifier and
    /// parameters from an [`AlgId`].
    ///
    /// The algorithm is only changed when the object identifier is in the
    /// known table; an unknown object identifier leaves it untouched.
    pub fn with_alg_id(self, alg_id: &AlgId) -> (r: Self)
        ensures
            r@ =~= (KeyInfoView {
                alg: if oids::alg_of_oid(alg_id.oid@) is Some {
                    oids::alg_of_oid(alg_id.oid@)->Some_0
                } else {
                    self@.alg
                },
                oid: Some(alg_id.oid@),
                params: alg_id@.params,
                ..self@
            }),
    {
        let mut s = self;
        match oids::alg_from_oid(alg_id.oid.as_slice()) {
            Some(alg) => { s.set_alg(alg); },
            None => {},
        }
        s.set_oid(alg_id.oid.as_slice());
        s.params = crate::alg_id::alg_params(alg_id);
        s
    }
}

impl Default for KeyInfo {
    /// The same fully unclassified record as [`KeyInfo::new`].
    fn default() -> (r: Self)
        ensures
            r@ =~= spec_key_info_new(),
    {
        Self::new()
    }
}

} // verus!
