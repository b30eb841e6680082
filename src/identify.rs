use vstd::prelude::*;

use crate::bytes::bytes_eq;

verus! {

/// Length in bytes of a BLAKE3 digest.
pub const DIGEST_LEN: usize = 32;

/// CID version byte.
pub const CID_VERSION: u8 = 0x01;

/// Multicodec tag of raw binary content.
pub const RAW_CODEC: u8 = 0x55;

/// Multihash tag of BLAKE3 with a 256-bit output.
pub const BLAKE3_CODE: u8 = 0x1e;

/// The BLAKE3 digest of `data`.
pub uninterp spec fn blake3_digest(data: Seq<u8>) -> Seq<u8>;

/// Relies on `blake3::hash`: the 32-byte BLAKE3 digest of the input, a function
/// of the input bytes alone.
#[verifier::external_body]
fn blake3_hash(data: &[u8]) -> (r: Vec<u8>)
    ensures
        r@ == blake3_digest(data@),
        r@.len() == DIGEST_LEN,
{
    blake3::hash(data).as_bytes().to_vec()
}

/// The binary form of a version-1 CID for raw content under a BLAKE3 digest:
/// version, codec, hash code and digest length (each a one-byte varint), then
/// the digest.
pub open spec fn cid_frame(digest: Seq<u8>) -> Seq<u8> {
    seq![CID_VERSION, RAW_CODEC, BLAKE3_CODE, DIGEST_LEN as u8] + digest
}

/// The identifier of an object whose content is `data`.
pub open spec fn identifier_of(data: Seq<u8>) -> Seq<u8> {
    cid_frame(blake3_digest(data))
}

/// A content identifier, held in its binary form.
#[derive(Debug, Clone, PartialEq, Eq)]
pub struct Cid {
    bytes: Vec<u8>,
}

impl View for Cid {
    type V = Seq<u8>;

    closed spec fn view(&self) -> Seq<u8> {
        self.bytes@
    }
}

impl Cid {
    /// The identifier's binary form.
    pub fn to_bytes(&self) -> (r: Vec<u8>)
        ensures
            r@ == self@,
    {
        self.bytes.clone()
    }

    /// A copy of the identifier.
    pub fn copy(&self) -> (r: Cid)
        ensures
            r@ == self@,
    {
        Cid { bytes: self.bytes.clone() }
    }

    /// Takes the binary form of an identifier as it is stored on the ledger.
    pub fn from_bytes(bytes: Vec<u8>) -> (r: Cid)
        ensures
            r@ == bytes@,
    {
        Cid { bytes }
    }
}

/// Wraps a BLAKE3 digest of raw content in a version-1 CID.
pub fn cid_from_digest(digest: &[u8]) -> (r: Cid)
    requires
        digest@.len() == DIGEST_LEN,
    ensures
        r@ == cid_frame(digest@),
{
    let mut bytes: Vec<u8> = Vec::with_capacity(4 + DIGEST_LEN);
    bytes.push(CID_VERSION);
    bytes.push(RAW_CODEC);
    bytes.push(BLAKE3_CODE);
    bytes.push(DIGEST_LEN as u8);
    let mut i: usize = 0;
    while i < digest.len()
        invariant
            i <= digest@.len(),
            bytes@ == seq![CID_VERSION, RAW_CODEC, BLAKE3_CODE, DIGEST_LEN as u8] + digest@.subrange(
                0,
                i as int,
            ),
        decreases digest@.len() - i,
    {
        bytes.push(digest[i]);
        i = i + 1;
    }
    assert(digest@.subrange(0, digest@.len() as int) =~= digest@);
    Cid { bytes }
}

/// Computes the content identifier of `data`.
pub fn identify(data: &[u8]) -> (r: Cid)
    ensures
        r@ == identifier_of(data@),
{
    let digest = blake3_hash(data);
    cid_from_digest(digest.as_slice())
}

/// Whether `data` is the content that `cid` identifies.
pub fn matches_identifier(data: &[u8], cid: &Cid) -> (r: bool)
    ensures
        r == (identifier_of(data@) == cid@),
{
    let own = identify(data);
    bytes_eq(&own.bytes, &cid.bytes)
}

/// Identical content always yields an identical identifier.
pub proof fn lemma_identify_deterministic(a: Seq<u8>, b: Seq<u8>)
    requires
        a == b,
    ensures
        identifier_of(a) == identifier_of(b),
{
}

/// The framing loses nothing: two identifiers agree exactly when the digests
/// inside them do.
pub proof fn lemma_cid_frame_injective(d1: Seq<u8>, d2: Seq<u8>)
    ensures
        cid_frame(d1) == cid_frame(d2) <==> d1 == d2,
{
    if cid_frame(d1) == cid_frame(d2) {
        assert(d1 =~= cid_frame(d1).subrange(4, cid_frame(d1).len() as int));
        assert(d2 =~= cid_frame(d2).subrange(4, cid_frame(d2).len() as int));
    }
}

} // verus!
