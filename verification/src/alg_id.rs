//! Algorithm identifier management.
//!
//! An [`AlgId`] pairs an object identifier with optional parameter bytes.
//! Two parameter shapes are produced here: an ASN.1 NULL (used by the RSA
//! family) and an embedded object identifier naming an elliptic curve.
//! Containers later re-encode these bytes verbatim, so they are stated
//! byte for byte.
use vstd::prelude::*;

use crate::bytes_util::clone_bytes;
use crate::errors::Error;
use crate::key_info::opt_bytes_view;
use crate::oids;

verus! {

/// The mathematical view of an [`AlgId`].
#[verifier::ext_equal]
pub ghost struct AlgIdView {
    pub oid: Seq<u8>,
    pub params: Option<Seq<u8>>,
}

/// An algorithm identifier: an object identifier, as DER content bytes,
/// with optional raw parameter bytes.
#[derive(Debug)]
pub struct AlgId {
    /// The object identifier's DER content bytes.
    pub oid: Vec<u8>,
    /// The DER bytes of the parameters, when present.
    pub params: Option<Vec<u8>>,
}

impl View for AlgId {
    type V = AlgIdView;

    open spec fn view(&self) -> AlgIdView {
        AlgIdView { oid: self.oid@, params: opt_bytes_view(self.params) }
    }
}

/// The DER encoding of an ASN.1 NULL value.
pub open spec fn spec_null_param() -> Seq<u8> {
    seq![5u8, 0]
}

/// The DER encoding of an object identifier with the given content
/// bytes: the tag, the short length form up to 127 bytes or the one-
/// and two-byte long forms after it, then the content. Only stated for
/// contents of at most 65535 bytes.
pub open spec fn spec_oid_param(content: Seq<u8>) -> Seq<u8> {
    if content.len() <= 127 {
        seq![6u8, content.len() as u8] + content
    } else if content.len() <= 255 {
        seq![6u8, 0x81u8, content.len() as u8] + content
    } else {
        seq![6u8, 0x82u8, (content.len() / 256) as u8, (content.len() % 256) as u8] + content
    }
}

/// Create an [`AlgId`] with NULL parameters.
pub fn alg_id_any(oid: Vec<u8>) -> (r: AlgId)
    ensures
        r@ =~= (AlgIdView { oid: oid@, params: Some(spec_null_param()) }),
{
    AlgId { oid, params: Some(vec![5u8, 0]) }
}

/// Create an [`AlgId`] whose parameter is an object identifier.
///
/// Most commonly used for elliptic curve key formats, where the curve is
/// named by an object identifier. Content longer than 65535 bytes would
/// need a three-byte length form and is rejected; object identifiers are
/// far shorter.
pub fn alg_id_with_oid_param(oid: Vec<u8>, params: &[u8]) -> (r: Result<AlgId, Error>)
    ensures
        params@.len() <= 65535 ==> (r is Ok && r->Ok_0@ =~= (AlgIdView {
            oid: oid@,
            params: Some(spec_oid_param(params@)),
        })),
        params@.len() > 65535 ==> r == Err::<AlgId, Error>(Error::NotSupported),
{
    if params.len() > 65535 {
        return Err(Error::NotSupported);
    }
    let mut p: Vec<u8> = Vec::new();
    p.push(6u8);
    if params.len() <= 127 {
        p.push(params.len() as u8);
    } else if params.len() <= 255 {
        p.push(0x81u8);
        p.push(params.len() as u8);
    } else {
        p.push(0x82u8);
        p.push((params.len() / 256) as u8);
        p.push((params.len() % 256) as u8);
    }
    let mut tail: Vec<u8> = vstd::slice::slice_to_vec(params);
    p.append(&mut tail);
    proof {
        assert(p@ =~= spec_oid_param(params@));
    }
    Ok(AlgId { oid, params: Some(p) })
}

/// The `rsaEncryption` algorithm identifier, with NULL parameters.
pub fn rsa_encryption() -> (r: AlgId)
    ensures
        r@ =~= (AlgIdView {
            oid: oids::spec_rsa_encryption_oid(),
            params: Some(spec_null_param()),
        }),
{
    alg_id_any(oids::rsa_encryption_oid())
}

/// The `rsassaPss` algorithm identifier, with NULL parameters.
pub fn rsapss_encryption() -> (r: AlgId)
    ensures
        r@ =~= (AlgIdView {
            oid: oids::spec_rsassa_pss_oid(),
            params: Some(spec_null_param()),
        }),
{
    alg_id_any(oids::rsassa_pss_oid())
}

/// The `id-ecPublicKey` algorithm identifier, with the curve named by an
/// embedded object identifier.
pub fn ec_encryption(curve: &[u8]) -> (r: Result<AlgId, Error>)
    ensures
        curve@.len() <= 65535 ==> (r is Ok && r->Ok_0@ =~= (AlgIdView {
            oid: oids::spec_ecdsa_oid(),
            params: Some(spec_oid_param(curve@)),
        })),
        curve@.len() > 65535 ==> r == Err::<AlgId, Error>(Error::NotSupported),
{
    alg_id_with_oid_param(oids::ecdsa_oid(), curve)
}

/// The parameter bytes of an [`AlgId`], when present.
pub fn alg_params(alg_id: &AlgId) -> (r: Option<Vec<u8>>)
    ensures
        opt_bytes_view(r) == alg_id@.params,
{
    match &alg_id.params {
        Some(p) => Some(clone_bytes(p)),
        None => None,
    }
}

} // verus!
