use base64::Engine;
use vstd::prelude::*;

use crate::address::Address;
use crate::error::Error;
use crate::identify::{cid_frame, cid_from_digest, Cid};
use crate::objectstore::external_put_params;
use crate::signer::{Call, CallView, KindView, Signer};

verus! {

/// A progress report of the local blob node while it ingests an object.
#[derive(Debug, Clone, PartialEq, Eq)]
pub enum IngestEvent {
    /// The object was found; it holds `size` bytes.
    Found { size: u64 },
    /// Ingest has reached `offset`.
    Progress { offset: u64 },
    /// The object's bytes are hashed and stored.
    Done,
    /// Ingest is complete; `hash` is the BLAKE3 digest of the whole object.
    AllDone { hash: [u8; 32] },
    /// The node gave up.
    Abort { reason: String },
}

/// Where an ingest stands.
#[derive(Debug, Clone, PartialEq, Eq)]
pub enum IngestState {
    /// No event yet.
    Started,
    /// The size is known; `position` bytes (at most `size`) are in.
    Ingesting { size: u64, position: u64 },
    /// The bytes are stored; the final identifier is still to come.
    Stored { size: u64 },
    /// Terminal success: the object's identifier and size.
    Complete { cid: Cid, size: u64 },
    /// Terminal failure.
    Failed(Error),
}

pub open spec fn is_terminal(s: IngestState) -> bool {
    s is Complete || s is Failed
}

/// The size an ingest has announced so far (none yet reads as zero).
pub open spec fn known_size(s: IngestState) -> u64 {
    match s {
        IngestState::Ingesting { size, .. } => size,
        IngestState::Stored { size } => size,
        _ => 0,
    }
}

/// `t` is the state that follows `s` on `e`.
pub open spec fn ingest_step(s: IngestState, e: IngestEvent, t: IngestState) -> bool {
    if is_terminal(s) {
        t == s
    } else {
        match e {
            IngestEvent::Abort { reason } => t == IngestState::Failed(Error::UploadAborted { reason }),
            IngestEvent::Found { size } => t == IngestState::Ingesting { size, position: 0 },
            IngestEvent::Progress { offset } => match s {
                IngestState::Ingesting { size, .. } => t == IngestState::Ingesting {
                    size,
                    position: if offset > size {
                        size
                    } else {
                        offset
                    },
                },
                _ => t == IngestState::Failed(Error::UnexpectedIngestEvent),
            },
            IngestEvent::Done => match s {
                IngestState::Ingesting { size, .. } => t == IngestState::Stored { size },
                _ => t == IngestState::Failed(Error::UnexpectedIngestEvent),
            },
            IngestEvent::AllDone { hash } => match t {
                IngestState::Complete { cid, size } => cid@ == cid_frame(hash@) && size
                    == known_size(s),
                _ => false,
            },
        }
    }
}

/// Advances an ingest by one event.
pub fn ingest_next(s: IngestState, e: IngestEvent) -> (t: IngestState)
    ensures
        ingest_step(s, e, t),
{
    match s {
        IngestState::Complete { .. } | IngestState::Failed(_) => s,
        _ => match e {
            IngestEvent::Abort { reason } => IngestState::Failed(Error::UploadAborted { reason }),
            IngestEvent::Found { size } => IngestState::Ingesting { size, position: 0 },
            IngestEvent::Progress { offset } => match s {
                IngestState::Ingesting { size, .. } => IngestState::Ingesting {
                    size,
                    position: if offset > size {
                        size
                    } else {
                        offset
                    },
                },
                _ => IngestState::Failed(Error::UnexpectedIngestEvent),
            },
            IngestEvent::Done => match s {
                IngestState::Ingesting { size, .. } => IngestState::Stored { size },
                _ => IngestState::Failed(Error::UnexpectedIngestEvent),
            },
            IngestEvent::AllDone { hash } => {
                let size = match s {
                    IngestState::Ingesting { size, .. } => size,
                    IngestState::Stored { size } => size,
                    _ => 0,
                };
                IngestState::Complete { cid: cid_from_digest(&hash), size }
            },
        },
    }
}

/// What an ingest came to once its events have run out: the identifier and
/// size on success; an ingest cut short before its final identifier fails.
pub fn ingest_outcome(s: IngestState) -> (r: Result<(Cid, u64), Error>)
    ensures
        match s {
            IngestState::Complete { cid, size } => r == Ok::<(Cid, u64), Error>((cid, size)),
            IngestState::Failed(e) => r == Err::<(Cid, u64), Error>(e),
            _ => r == Err::<(Cid, u64), Error>(Error::UnexpectedIngestEvent),
        },
{
    match s {
        IngestState::Complete { cid, size } => Ok((cid, size)),
        IngestState::Failed(e) => Err(e),
        _ => Err(Error::UnexpectedIngestEvent),
    }
}

/// The base64 text (URL-safe alphabet, padded) of `data`.
pub uninterp spec fn base64_url(data: Seq<u8>) -> Seq<char>;

/// Relies on `base64::engine::general_purpose::URL_SAFE.encode`: the padded
/// URL-safe base64 text of the input, four characters per started group of
/// three bytes. It panics where that length overflows `usize` or exceeds what
/// a `Vec` can hold.
#[verifier::external_body]
fn encode_base64_url(data: &[u8]) -> (r: String)
    requires
        4 * ((data@.len() + 2) / 3) <= isize::MAX,
    ensures
        r@ == base64_url(data@),
        r@.len() == 4 * ((data@.len() + 2) / 3),
{
    base64::engine::general_purpose::URL_SAFE.encode(data)
}

/// The request that tells the staging API a blob is ready to be fetched from
/// the local node.
#[derive(Debug, Clone, PartialEq, Eq)]
pub struct Announce {
    /// The blob's identifier.
    pub cid: Cid,
    /// The object's size in bytes.
    pub size: u64,
    /// The signed put message, base64-encoded.
    pub signed_auth: String,
    /// The chain the signature is bound to.
    pub chain_id: u64,
}

/// The announcement of the blob `cid` of `size` bytes, authorized by the
/// serialized signed message `signed`; refused where the base64 text of the
/// message would not fit in memory.
pub fn announce_from_signed(cid: Cid, size: u64, signed: &[u8], chain_id: u64) -> (r: Result<
    Announce,
    Error,
>)
    ensures
        4 * ((signed@.len() + 2) / 3) <= isize::MAX ==> r is Ok && ({
            let a = r->Ok_0;
            &&& a.cid == cid
            &&& a.size == size
            &&& a.signed_auth@ == base64_url(signed@)
            &&& a.chain_id == chain_id
        }),
        4 * ((signed@.len() + 2) / 3) > isize::MAX ==> r == Err::<Announce, Error>(
            Error::EncodingError,
        ),
{
    let n = signed.len();
    let groups: usize = n / 3 + if n % 3 > 0 {
        1
    } else {
        0
    };
    if groups > (isize::MAX as usize) / 4 {
        return Err(Error::EncodingError);
    }
    let signed_auth = encode_base64_url(signed);
    Ok(Announce { cid, size, signed_auth, chain_id })
}

/// `a` announces the blob `cid` of `size` bytes for a put under `key` of the
/// machine at `machine`: it carries the signer's subnet chain ID and the base64
/// text of the signer's message for that put.
pub open spec fn announces<S: Signer>(
    signer: S,
    machine: Address,
    key: Seq<char>,
    overwrite: bool,
    a: Announce,
    cid: Seq<u8>,
    size: u64,
) -> bool {
    &&& a.cid@ == cid
    &&& a.size == size
    &&& signer.subnet_chain() == Some(a.chain_id)
    &&& exists|c: Call|
        #![trigger signer.auth_message(machine, c)]
        c@ == CallView::Put(key, KindView::External(cid), overwrite) && a.signed_auth@
            == base64_url(signer.auth_message(machine, c)@)
}

/// Prepares the announcement of the blob `cid` of `size` bytes, to be stored
/// under `key` of the machine at `machine`: the signer signs the put that will
/// follow, and the announcement carries that signature and the chain ID of the
/// signer's subnet.
pub fn prepare_announce<S: Signer>(
    signer: &S,
    machine: &Address,
    key: &str,
    cid: Cid,
    size: u64,
    overwrite: bool,
) -> (r: Result<Announce, Error>)
    ensures
        !signer.holds_key() ==> r == Err::<Announce, Error>(Error::SigningDenied),
        signer.subnet_chain() is None ==> r is Err,
        r is Ok ==> r->Ok_0.cid == cid && announces(*signer, *machine, key@, overwrite, r->Ok_0, cid@, size),
{
    let call = Call::Put(external_put_params(key, cid.copy(), overwrite));
    let signed = match signer.sign_message(machine, &call) {
        Ok(b) => b,
        Err(e) => {
            return Err(e);
        },
    };
    let chain_id = match signer.subnet_chain_id() {
        Some(id) => id,
        None => {
            return Err(Error::MissingSubnet);
        },
    };
    let r = announce_from_signed(cid, size, signed.as_slice(), chain_id);
    assert(call@ == CallView::Put(key@, KindView::External(cid@), overwrite));
    r
}

} // verus!
