use vstd::prelude::*;

use crate::bytes::copy_range;
use crate::error::Error;
use crate::address::Address;
use crate::identify::Cid;
use crate::options::{AddOptions, DeleteOptions, GetOptions};
use crate::session::{AddSession, AddStage, GetSession};
use crate::signer::{Call, CallView, Signer};
use crate::range::{parse_range, range_spec};

verus! {

/// The largest object that is stored on the ledger itself.
pub const MAX_INTERNAL_OBJECT_LENGTH: usize = 1024;

/// How many bytes to sample from the head of an object to decide its tier:
/// one more than fits on the ledger.
pub const SAMPLE_LENGTH: usize = 1025;

/// Where an object lives.
#[derive(Debug, Clone, Copy, PartialEq, Eq)]
pub enum Tier {
    /// Embedded in the transaction and stored on the ledger.
    Inline,
    /// Stored in the blob network; the ledger holds its identifier.
    Detached,
}

/// The tier of an object whose sample from the head holds `sampled` bytes.
pub open spec fn tier_spec(sampled: nat) -> Result<Tier, Error> {
    if sampled == 0 {
        Err(Error::EmptyObject)
    } else if sampled <= MAX_INTERNAL_OBJECT_LENGTH {
        Ok(Tier::Inline)
    } else {
        Ok(Tier::Detached)
    }
}

/// Decides the tier of an object from the number of bytes sampled from its head.
pub fn classify(sampled: usize) -> (r: Result<Tier, Error>)
    ensures
        r == tier_spec(sampled as nat),
{
    if sampled == 0 {
        Err(Error::EmptyObject)
    } else if sampled <= MAX_INTERNAL_OBJECT_LENGTH {
        Ok(Tier::Inline)
    } else {
        Ok(Tier::Detached)
    }
}

/// What a put transaction stores under a key.
#[derive(Debug, Clone, PartialEq, Eq)]
pub enum ObjectKind {
    /// The object's bytes.
    Internal(Vec<u8>),
    /// The identifier of the object's content in the blob network.
    External(Cid),
}

/// Parameters of a put transaction.
#[derive(Debug, Clone, PartialEq, Eq)]
pub struct PutParams {
    pub key: String,
    pub kind: ObjectKind,
    pub overwrite: bool,
}

/// Parameters of a delete transaction.
#[derive(Debug, Clone, PartialEq, Eq)]
pub struct DeleteParams {
    pub key: String,
}

/// An object descriptor as the ledger holds it.
#[derive(Debug, Clone, PartialEq, Eq)]
pub enum Object {
    /// The object's bytes, stored on the ledger.
    Internal(Vec<u8>),
    /// The identifier of the content, and whether the network has confirmed
    /// that the blob is available.
    External(Cid, bool),
}

/// What a descriptor says, as plain values.
pub enum ObjectView {
    Internal(Seq<u8>),
    External(Seq<u8>, bool),
}

impl View for Object {
    type V = ObjectView;

    open spec fn view(&self) -> ObjectView {
        match self {
            Object::Internal(buf) => ObjectView::Internal(buf@),
            Object::External(cid, resolved) => ObjectView::External(cid@, *resolved),
        }
    }
}

pub open spec fn opt_object_view(o: Option<Object>) -> Option<ObjectView> {
    match o {
        Some(x) => Some(x@),
        None => None,
    }
}

/// How an add proceeds once the head of the object has been sampled.
#[derive(Debug, Clone, PartialEq, Eq)]
pub enum AddPlan {
    /// The whole object was sampled; the transaction carries it.
    Inline(PutParams),
    /// The object goes through the blob network first.
    Detached,
}

/// Decides how to add the object under `key` whose head is `sample`, read
/// with room for `SAMPLE_LENGTH` bytes.
pub fn plan_add(key: &str, sample: Vec<u8>, overwrite: bool) -> (r: Result<AddPlan, Error>)
    requires
        sample@.len() <= SAMPLE_LENGTH,
    ensures
        sample@.len() == 0 ==> r == Err::<AddPlan, Error>(Error::EmptyObject),
        0 < sample@.len() <= MAX_INTERNAL_OBJECT_LENGTH ==> r is Ok && r->Ok_0 is Inline && ({
            let p = r->Ok_0->Inline_0;
            p.key@ == key@ && p.kind == ObjectKind::Internal(sample) && p.overwrite == overwrite
        }),
        sample@.len() > MAX_INTERNAL_OBJECT_LENGTH ==> r == Ok::<AddPlan, Error>(AddPlan::Detached),
{
    match classify(sample.len()) {
        Err(e) => Err(e),
        Ok(Tier::Inline) => Ok(
            AddPlan::Inline(
                PutParams { key: key.to_owned(), kind: ObjectKind::Internal(sample), overwrite },
            ),
        ),
        Ok(Tier::Detached) => Ok(AddPlan::Detached),
    }
}

/// Parameters that store `cid` as the content under `key`, once the blob has
/// been announced to the network.
pub fn external_put_params(key: &str, cid: Cid, overwrite: bool) -> (r: PutParams)
    ensures
        r.key@ == key@,
        r.kind == ObjectKind::External(cid),
        r.overwrite == overwrite,
{
    PutParams { key: key.to_owned(), kind: ObjectKind::External(cid), overwrite }
}

/// Parameters that delete the object under `key`.
pub fn delete_params(key: &str) -> (r: DeleteParams)
    ensures
        r.key@ == key@,
{
    DeleteParams { key: key.to_owned() }
}

/// How the bytes of an object are obtained.
#[derive(Debug, Clone, PartialEq, Eq)]
pub enum Fetch {
    /// The bytes to deliver, taken from the descriptor itself.
    Bytes(Vec<u8>),
    /// Download the blob with this identifier, passing the range on.
    Download { cid: Cid, range: Option<String> },
}

pub open spec fn opt_view(o: Option<String>) -> Option<Seq<char>> {
    match o {
        Some(s) => Some(s@),
        None => None,
    }
}

/// The bytes of an on-ledger object that the optional range spec selects.
pub open spec fn slice_spec(buf: Seq<u8>, range: Option<Seq<char>>) -> Result<Seq<u8>, Error> {
    match range {
        None => Ok(buf),
        Some(s) => match range_spec(s, buf.len() as u64) {
            Ok((start, end)) => Ok(buf.subrange(start as int, end + 1)),
            Err(e) => Err(e),
        },
    }
}

pub open spec fn is_not_found(e: Error, key: Seq<char>) -> bool {
    match e {
        Error::ObjectNotFound { key: k } => k@ == key,
        _ => false,
    }
}

pub open spec fn is_not_resolved(e: Error, key: Seq<char>) -> bool {
    match e {
        Error::ObjectNotResolved { key: k } => k@ == key,
        _ => false,
    }
}

/// What a get of `key`, whose descriptor is `object`, leads to.
pub open spec fn fetch_spec(
    key: Seq<char>,
    object: Option<ObjectView>,
    range: Option<Seq<char>>,
    r: Result<Fetch, Error>,
) -> bool {
    match object {
        None => r is Err && is_not_found(r->Err_0, key),
        Some(ObjectView::Internal(buf)) => match slice_spec(buf, range) {
            Ok(b) => r is Ok && r->Ok_0 is Bytes && r->Ok_0->Bytes_0@ == b,
            Err(e) => r == Err::<Fetch, Error>(e),
        },
        Some(ObjectView::External(cid, resolved)) => if !resolved {
            r is Err && is_not_resolved(r->Err_0, key)
        } else {
            r is Ok && r->Ok_0 is Download && r->Ok_0->cid@ == cid && opt_view(r->Ok_0->range)
                == range
        },
    }
}

/// Resolves the descriptor found under `key` to the way its bytes are fetched:
/// a slice of the descriptor's own bytes, or a download of the blob it names.
pub fn plan_get(key: &str, object: Option<Object>, range: Option<String>) -> (r: Result<
    Fetch,
    Error,
>)
    ensures
        fetch_spec(key@, opt_object_view(object), opt_view(range), r),
{
    match object {
        None => Err(Error::ObjectNotFound { key: key.to_owned() }),
        Some(Object::Internal(buf)) => match range {
            None => Ok(Fetch::Bytes(buf)),
            Some(spec) => {
                match parse_range(spec, buf.len() as u64) {
                    Ok((start, end)) => Ok(Fetch::Bytes(copy_range(&buf, start as usize, end as usize))),
                    Err(e) => Err(e),
                }
            },
        },
        Some(Object::External(cid, resolved)) => {
            if !resolved {
                Err(Error::ObjectNotResolved { key: key.to_owned() })
            } else {
                Ok(Fetch::Download { cid, range })
            }
        },
    }
}

/// A byte counter for a streamed download, capped at the object's size.
pub struct DownloadProgress {
    pub received: u64,
    pub total: u64,
}

impl DownloadProgress {
    pub fn new(total: u64) -> (r: DownloadProgress)
        ensures
            r.received == 0,
            r.total == total,
    {
        DownloadProgress { received: 0, total }
    }

    /// Counts a chunk of `len` bytes that was written to the sink.
    pub fn record(&mut self, len: usize)
        ensures
            final(self).total == old(self).total,
            final(self).received == if old(self).received + len > old(self).total {
                old(self).total as int
            } else {
                old(self).received + len
            },
    {
        let len = len as u64;
        if len > self.total || self.received > self.total - len {
            self.received = self.total;
        } else {
            self.received = self.received + len;
        }
    }
}

/// An object-store machine on the ledger, known by its address.
pub struct ObjectStore {
    address: Address,
}

impl ObjectStore {
    /// The machine at `address`.
    pub fn attach(address: Address) -> (r: ObjectStore)
        ensures
            r.machine()@ == address@,
    {
        ObjectStore { address }
    }

    pub closed spec fn machine(&self) -> Address {
        self.address
    }

    /// The machine's address.
    pub fn address(&self) -> (r: &Address)
        ensures
            *r == self.machine(),
    {
        &self.address
    }

    /// Begins adding an object under `key`; the session decides each step.
    pub fn add(&self, key: &str, options: &AddOptions) -> (r: AddSession)
        ensures
            r.machine@ == self.machine()@,
            r.key@ == key@,
            r.overwrite == options.overwrite,
            r.gas == options.gas_params,
            r.stage == AddStage::Sampling,
    {
        AddSession::new(self.address.copy(), key.to_owned(), options.overwrite, options.gas_params)
    }

    /// Begins getting the object under `key`, or the range of it that
    /// `options` names.
    pub fn get(&self, key: &str, options: &GetOptions) -> (r: GetSession)
        ensures
            r.key@ == key@,
            opt_view(r.range) == opt_view(options.range),
            r.stage is Resolving,
    {
        let range = match &options.range {
            Some(s) => Some(s.clone()),
            None => None,
        };
        GetSession::new(key.to_owned(), range)
    }

    /// The signed transaction that deletes the object under `key`.
    pub fn delete<S: Signer>(&self, signer: &mut S, key: &str, options: &DeleteOptions) -> (r: Result<
        Vec<u8>,
        Error,
    >)
        ensures
            final(signer).holds_key() == old(signer).holds_key(),
            !old(signer).holds_key() ==> r == Err::<Vec<u8>, Error>(Error::SigningDenied),
            r is Ok ==> exists|c: Call|
                #![trigger old(signer).tx_message(self.machine(), c, options.gas_params)]
                c@ == CallView::Delete(key@) && r->Ok_0 == old(signer).tx_message(
                    self.machine(),
                    c,
                    options.gas_params,
                ),
    {
        let call = Call::Delete(delete_params(key));
        let r = signer.transaction(&self.address, &call, &options.gas_params);
        assert(call@ == CallView::Delete(key@));
        r
    }
}

} // verus!
