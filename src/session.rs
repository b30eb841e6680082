use vstd::prelude::*;

use crate::address::Address;
use crate::error::Error;
use crate::identify::Cid;
use crate::objectstore::{
    external_put_params, is_not_found, is_not_resolved, opt_object_view, opt_view, plan_add,
    plan_get, slice_spec, AddPlan, DownloadProgress, Fetch, Object, ObjectView,
    MAX_INTERNAL_OBJECT_LENGTH, SAMPLE_LENGTH,
};
use crate::identify::cid_frame;
use crate::signer::{Call, CallView, GasParams, KindView, Signer};
use crate::upload::{
    announces, ingest_next, ingest_outcome, ingest_step, is_terminal, known_size, prepare_announce,
    Announce, IngestEvent, IngestState,
};

verus! {

/// Where an add stands.
#[derive(Debug, Clone, PartialEq, Eq)]
pub enum AddStage {
    /// Waiting for the head of the object.
    Sampling,
    /// The local blob node is ingesting the object.
    Ingesting(IngestState),
    /// The blob was announced to the staging API; waiting for its answer.
    Announcing { cid: Cid },
    /// The put transaction was submitted; waiting for the ledger.
    Submitting,
    /// Terminal success.
    Done,
    /// Terminal failure.
    Failed(Error),
}

/// What the outside world reports to an add.
#[derive(Debug, PartialEq, Eq)]
pub enum AddEvent {
    /// The head of the object, read with room for `SAMPLE_LENGTH` bytes; the
    /// stream has been rewound to where it started.
    Sampled(Vec<u8>),
    /// A progress report of the local blob node.
    Ingest(IngestEvent),
    /// The blob node's reports ran out.
    IngestEnded,
    /// The staging API's answer to the announcement, or why it failed.
    Announced(Result<(), String>),
    /// The ledger's answer to the put transaction, or why it failed.
    Submitted(Result<(), String>),
    /// The receipt poll budget ran out before the ledger answered.
    ReceiptTimedOut,
}

/// What the driver of an add does next.
#[derive(Debug, Clone, PartialEq, Eq)]
pub enum AddAction {
    /// Wait for the next event.
    Wait,
    /// Hand the rewound object stream to the local blob node.
    StartIngest,
    /// Send this announcement to the staging API.
    Announce(Announce),
    /// Submit the signer's transaction for this put to the ledger.
    Submit { call: Call, signed: Vec<u8> },
    /// The add has ended; its stage tells how.
    Stop,
}

/// An add of one object under one key of a machine.
#[derive(Debug, Clone, PartialEq, Eq)]
pub struct AddSession {
    pub machine: Address,
    pub key: String,
    pub overwrite: bool,
    pub gas: GasParams,
    pub stage: AddStage,
}

pub open spec fn is_final(s: AddStage) -> bool {
    s is Done || s is Failed
}

/// Whether the step from `stage` on `event` asks the signer for a transaction.
pub open spec fn signs_tx(stage: AddStage, event: AddEvent) -> bool {
    ||| stage == AddStage::Sampling && event is Sampled && 0 < event->Sampled_0@.len()
        <= MAX_INTERNAL_OBJECT_LENGTH
    ||| stage is Announcing && event is Announced && event->Announced_0 is Ok
}

pub open spec fn same_request(a: AddSession, b: AddSession) -> bool {
    a.machine == b.machine && a.key == b.key && a.overwrite == b.overwrite && a.gas == b.gas
}

impl AddSession {
    /// A new add of an object under `key` of the machine at `machine`.
    pub fn new(machine: Address, key: String, overwrite: bool, gas: GasParams) -> (r: AddSession)
        ensures
            r.machine == machine,
            r.key == key,
            r.overwrite == overwrite,
            r.gas == gas,
            r.stage == AddStage::Sampling,
    {
        AddSession { machine, key, overwrite, gas, stage: AddStage::Sampling }
    }

    fn sign_put<S: Signer>(
        signer: &mut S,
        machine: &Address,
        call: Call,
        gas: &GasParams,
    ) -> (r: (AddStage, AddAction))
        ensures
            final(signer).holds_key() == old(signer).holds_key(),
            !old(signer).holds_key() ==> r.0 == AddStage::Failed(Error::SigningDenied) && r.1
                == AddAction::Stop,
            r.1 is Submit ==> r.0 == AddStage::Submitting && r.1->call == call && r.1->signed
                == old(signer).tx_message(*machine, call, *gas),
            r.1 is Submit || (r.1 is Stop && r.0 is Failed),
    {
        match signer.transaction(machine, &call, gas) {
            Ok(signed) => (AddStage::Submitting, AddAction::Submit { call, signed }),
            Err(e) => (AddStage::Failed(e), AddAction::Stop),
        }
    }

    /// Advances the add by one event: the next stage, and what the driver does.
    pub fn step<S: Signer>(self, signer: &mut S, event: AddEvent) -> (r: (AddSession, AddAction))
        ensures
            same_request(r.0, self),
            final(signer).holds_key() == old(signer).holds_key(),
            // The signer is used only where a transaction is to be signed.
            !signs_tx(self.stage, event) ==> *final(signer) == *old(signer),
            is_final(self.stage) ==> r.0.stage == self.stage && r.1 == AddAction::Stop,
            r.1 == AddAction::Stop <==> is_final(r.0.stage),
            // The head of the object decides the tier.
            self.stage == AddStage::Sampling && event is Sampled && event->Sampled_0@.len() == 0
                ==> r.0.stage == AddStage::Failed(Error::EmptyObject),
            self.stage == AddStage::Sampling && event is Sampled && MAX_INTERNAL_OBJECT_LENGTH
                < event->Sampled_0@.len() <= SAMPLE_LENGTH ==> r.0.stage == AddStage::Ingesting(
                IngestState::Started,
            ) && r.1 == AddAction::StartIngest,
            self.stage == AddStage::Sampling && event is Sampled && event->Sampled_0@.len()
                > SAMPLE_LENGTH ==> r.0.stage == AddStage::Failed(Error::UnexpectedEvent),
            // An object that fits on the ledger is put with its bytes.
            self.stage == AddStage::Sampling && event is Sampled && 0 < event->Sampled_0@.len()
                <= MAX_INTERNAL_OBJECT_LENGTH ==> (r.1 is Submit || r.0.stage is Failed) && (
            !old(signer).holds_key() ==> r.0.stage == AddStage::Failed(Error::SigningDenied)),
            // Ingest progress follows the ingest state machine.
            self.stage is Ingesting && !is_terminal(self.stage->Ingesting_0) && event is Ingest
                && !(event->Ingest_0 is AllDone) && !(event->Ingest_0 is Abort) ==> ((
            r.0.stage is Ingesting && r.1 == AddAction::Wait && ingest_step(
                self.stage->Ingesting_0,
                event->Ingest_0,
                r.0.stage->Ingesting_0,
            )) || (r.0.stage is Failed && r.1 == AddAction::Stop && ingest_step(
                self.stage->Ingesting_0,
                event->Ingest_0,
                IngestState::Failed(r.0.stage->Failed_0),
            ))),
            // An abort, or reports that run out, end the add: no announcement, no
            // transaction.
            self.stage is Ingesting && !is_terminal(self.stage->Ingesting_0) && event is Ingest
                && event->Ingest_0 is Abort ==> r.0.stage == AddStage::Failed(
                Error::UploadAborted { reason: event->Ingest_0->reason },
            ) && r.1 == AddAction::Stop,
            self.stage is Ingesting && event is IngestEnded ==> r.0.stage is Failed,
            // The final identifier is announced with the object's size and the
            // signed authorization for the put that will follow.
            r.1 is Announce ==> self.stage is Ingesting && event is Ingest && event->Ingest_0 is AllDone
                && r.0.stage is Announcing,
            self.stage is Ingesting && !is_terminal(self.stage->Ingesting_0) && event is Ingest
                && event->Ingest_0 is AllDone ==> (r.0.stage is Failed || (r.1 is Announce
                && r.0.stage is Announcing && r.0.stage->cid@ == cid_frame(
                event->Ingest_0->hash@,
            ) && announces(
                *old(signer),
                self.machine,
                self.key@,
                self.overwrite,
                r.1->Announce_0,
                cid_frame(event->Ingest_0->hash@),
                known_size(self.stage->Ingesting_0),
            ))) && (!old(signer).holds_key() ==> r.0.stage == AddStage::Failed(
                Error::SigningDenied,
            )),
            // A transaction is submitted for an object that fits on the ledger, or
            // after the staging API accepted the blob's announcement; it is the
            // signer's transaction for the put of that object.
            r.1 is Submit ==> r.0.stage == AddStage::Submitting && r.1->signed
                == old(signer).tx_message(self.machine, r.1->call, self.gas) && ((self.stage
                == AddStage::Sampling && event is Sampled && 0 < event->Sampled_0@.len()
                <= MAX_INTERNAL_OBJECT_LENGTH && r.1->call@ == CallView::Put(
                self.key@,
                KindView::Internal(event->Sampled_0@),
                self.overwrite,
            )) || (self.stage is Announcing && event is Announced && event->Announced_0 is Ok && r.1->call@
                == CallView::Put(self.key@, KindView::External(self.stage->cid@), self.overwrite))),
            self.stage is Announcing && event is Announced && event->Announced_0 is Ok ==> (r.1 is Submit
                || r.0.stage is Failed) && (!old(signer).holds_key() ==> r.0.stage
                == AddStage::Failed(Error::SigningDenied)),
            self.stage is Announcing && event is Announced && event->Announced_0 is Err
                ==> r.0.stage == AddStage::Failed(
                Error::AnnounceFailed { cause: event->Announced_0->Err_0 },
            ),
            // The ledger's answer ends the add.
            self.stage == AddStage::Submitting && event == AddEvent::Submitted(Ok(()))
                ==> r.0.stage == AddStage::Done,
            self.stage == AddStage::Submitting && event is Submitted && event->Submitted_0 is Err
                ==> r.0.stage == AddStage::Failed(
                Error::TxFailed { cause: event->Submitted_0->Err_0 },
            ),
            self.stage == AddStage::Submitting && event == AddEvent::ReceiptTimedOut
                ==> r.0.stage == AddStage::Failed(Error::ReceiptUnavailable),
    {
        let AddSession { machine, key, overwrite, gas, stage } = self;
        let (stage, action) = match stage {
            AddStage::Done => (AddStage::Done, AddAction::Stop),
            AddStage::Failed(e) => (AddStage::Failed(e), AddAction::Stop),
            AddStage::Sampling => match event {
                AddEvent::Sampled(sample) => {
                    if sample.len() > SAMPLE_LENGTH {
                        (AddStage::Failed(Error::UnexpectedEvent), AddAction::Stop)
                    } else {
                        match plan_add(key.as_str(), sample, overwrite) {
                            Err(e) => (AddStage::Failed(e), AddAction::Stop),
                            Ok(AddPlan::Detached) => (
                                AddStage::Ingesting(IngestState::Started),
                                AddAction::StartIngest,
                            ),
                            Ok(AddPlan::Inline(params)) => Self::sign_put(
                                signer,
                                &machine,
                                Call::Put(params),
                                &gas,
                            ),
                        }
                    }
                },
                _ => (AddStage::Failed(Error::UnexpectedEvent), AddAction::Stop),
            },
            AddStage::Ingesting(IngestState::Complete { .. }) | AddStage::Ingesting(
                IngestState::Failed(_),
            ) => (AddStage::Failed(Error::UnexpectedEvent), AddAction::Stop),
            AddStage::Ingesting(state) => match event {
                AddEvent::Ingest(e) => {
                    let next = ingest_next(state, e);
                    match next {
                        IngestState::Complete { cid, size } => {
                            match prepare_announce(
                                signer,
                                &machine,
                                key.as_str(),
                                cid.copy(),
                                size,
                                overwrite,
                            ) {
                                Ok(a) => (AddStage::Announcing { cid }, AddAction::Announce(a)),
                                Err(e) => (AddStage::Failed(e), AddAction::Stop),
                            }
                        },
                        IngestState::Failed(e) => (AddStage::Failed(e), AddAction::Stop),
                        other => (AddStage::Ingesting(other), AddAction::Wait),
                    }
                },
                AddEvent::IngestEnded => match ingest_outcome(state) {
                    Err(e) => (AddStage::Failed(e), AddAction::Stop),
                    Ok(_) => (AddStage::Failed(Error::UnexpectedEvent), AddAction::Stop),
                },
                _ => (AddStage::Failed(Error::UnexpectedEvent), AddAction::Stop),
            },
            AddStage::Announcing { cid } => match event {
                AddEvent::Announced(Ok(())) => {
                    let params = external_put_params(key.as_str(), cid, overwrite);
                    Self::sign_put(signer, &machine, Call::Put(params), &gas)
                },
                AddEvent::Announced(Err(cause)) => (
                    AddStage::Failed(Error::AnnounceFailed { cause }),
                    AddAction::Stop,
                ),
                _ => (AddStage::Failed(Error::UnexpectedEvent), AddAction::Stop),
            },
            AddStage::Submitting => match event {
                AddEvent::Submitted(Ok(())) => (AddStage::Done, AddAction::Stop),
                AddEvent::Submitted(Err(cause)) => (
                    AddStage::Failed(Error::TxFailed { cause }),
                    AddAction::Stop,
                ),
                AddEvent::ReceiptTimedOut => (
                    AddStage::Failed(Error::ReceiptUnavailable),
                    AddAction::Stop,
                ),
                _ => (AddStage::Failed(Error::UnexpectedEvent), AddAction::Stop),
            },
        };
        (AddSession { machine, key, overwrite, gas, stage }, action)
    }
}

/// Where a get stands.
pub enum GetStage {
    /// Waiting for the descriptor stored under the key.
    Resolving,
    /// The object is a resolved blob; waiting for its size.
    Sizing { range: Option<String> },
    /// The blob's bytes are streaming in.
    Downloading(DownloadProgress),
    /// Terminal success.
    Done,
    /// Terminal failure. Bytes already written stay written.
    Failed(Error),
}

/// What the outside world reports to a get.
pub enum GetEvent {
    /// The descriptor stored under the key, if any.
    Descriptor(Option<Object>),
    /// The blob's size according to the retrieval API, or why it is unknown.
    Size(Result<u64, String>),
    /// The next chunk of the download, or the transport error that broke it.
    Chunk(Result<Vec<u8>, String>),
    /// The download stream ended.
    StreamEnded,
}

/// What the driver of a get does next.
pub enum GetAction {
    /// Write these bytes to the sink; the get is then complete.
    Deliver(Vec<u8>),
    /// Ask the retrieval API for the blob's size.
    QuerySize,
    /// Start the streamed download, passing this range on.
    Download(Option<String>),
    /// Write this chunk to the sink and wait for the next event.
    Write(Vec<u8>),
    /// The get has ended; its stage tells how.
    Stop,
}

/// A get of the object under one key, optionally of a byte range of it.
pub struct GetSession {
    pub key: String,
    pub range: Option<String>,
    pub stage: GetStage,
}

pub open spec fn get_is_final(s: GetStage) -> bool {
    s is Done || s is Failed
}

impl GetSession {
    /// A new get of the object under `key`.
    pub fn new(key: String, range: Option<String>) -> (r: GetSession)
        ensures
            r.key == key,
            r.range == range,
            r.stage is Resolving,
    {
        GetSession { key, range, stage: GetStage::Resolving }
    }

    /// Advances the get by one event: the next stage, and what the driver does.
    pub fn step(self, event: GetEvent) -> (r: (GetSession, GetAction))
        ensures
            r.0.key == self.key,
            get_is_final(r.0.stage) <==> (r.1 is Stop || r.1 is Deliver),
            get_is_final(self.stage) ==> r.1 is Stop,
            // Bytes are delivered only from a descriptor that holds them, and
            // nothing is written once the get has failed.
            r.1 is Deliver ==> self.stage is Resolving && r.0.stage is Done,
            r.0.stage is Failed ==> r.1 is Stop,
            self.stage is Resolving && event is Descriptor ==> ({
                let o = opt_object_view(event->Descriptor_0);
                match o {
                    None => r.0.stage is Failed && is_not_found(r.0.stage->Failed_0, self.key@),
                    Some(ObjectView::Internal(buf)) => match slice_spec(buf, opt_view(self.range)) {
                        Ok(b) => r.0.stage is Done && r.1 is Deliver && r.1->Deliver_0@ == b,
                        Err(e) => r.0.stage == GetStage::Failed(e),
                    },
                    Some(ObjectView::External(_, resolved)) => if resolved {
                        r.1 is QuerySize && r.0.stage is Sizing && opt_view(r.0.stage->range)
                            == opt_view(self.range)
                    } else {
                        r.0.stage is Failed && is_not_resolved(r.0.stage->Failed_0, self.key@)
                    },
                }
            }),
            self.stage is Sizing && event is Size && event->Size_0 is Ok ==> r.0.stage is Downloading
                && r.0.stage->Downloading_0.received == 0 && r.0.stage->Downloading_0.total
                == event->Size_0->Ok_0 && r.1 is Download && opt_view(r.1->Download_0) == opt_view(
                self.stage->range,
            ),
            self.stage is Downloading && event is Chunk && event->Chunk_0 is Ok ==> r.0.stage is Downloading
                && r.1 is Write && r.1->Write_0@ == event->Chunk_0->Ok_0@
                && r.0.stage->Downloading_0.total == self.stage->Downloading_0.total
                && r.0.stage->Downloading_0.received == if self.stage->Downloading_0.received
                + event->Chunk_0->Ok_0@.len() > self.stage->Downloading_0.total {
                self.stage->Downloading_0.total as int
            } else {
                self.stage->Downloading_0.received + event->Chunk_0->Ok_0@.len()
            },
            self.stage is Downloading && event is Chunk && event->Chunk_0 is Err ==> r.0.stage
                == GetStage::Failed(Error::DownloadFailed { cause: event->Chunk_0->Err_0 }),
            self.stage is Downloading && event is StreamEnded ==> r.0.stage is Done && r.1 is Stop,
            r.1 is Write ==> self.stage is Downloading,
    {
        let GetSession { key, range, stage } = self;
        match stage {
            GetStage::Done => (GetSession { key, range, stage: GetStage::Done }, GetAction::Stop),
            GetStage::Failed(e) => (
                GetSession { key, range, stage: GetStage::Failed(e) },
                GetAction::Stop,
            ),
            GetStage::Resolving => match event {
                GetEvent::Descriptor(object) => {
                    let wanted = match &range {
                        Some(s) => Some(s.clone()),
                        None => None,
                    };
                    match plan_get(key.as_str(), object, wanted) {
                        Err(e) => (GetSession { key, range, stage: GetStage::Failed(e) }, GetAction::Stop),
                        Ok(Fetch::Bytes(b)) => (
                            GetSession { key, range, stage: GetStage::Done },
                            GetAction::Deliver(b),
                        ),
                        Ok(Fetch::Download { cid: _, range: passed }) => (
                            GetSession { key, range, stage: GetStage::Sizing { range: passed } },
                            GetAction::QuerySize,
                        ),
                    }
                },
                _ => (
                    GetSession { key, range, stage: GetStage::Failed(Error::UnexpectedEvent) },
                    GetAction::Stop,
                ),
            },
            GetStage::Sizing { range: passed } => match event {
                GetEvent::Size(Ok(total)) => (
                    GetSession {
                        key,
                        range,
                        stage: GetStage::Downloading(DownloadProgress::new(total)),
                    },
                    GetAction::Download(passed),
                ),
                GetEvent::Size(Err(cause)) => (
                    GetSession {
                        key,
                        range,
                        stage: GetStage::Failed(Error::DownloadFailed { cause }),
                    },
                    GetAction::Stop,
                ),
                _ => (
                    GetSession { key, range, stage: GetStage::Failed(Error::UnexpectedEvent) },
                    GetAction::Stop,
                ),
            },
            GetStage::Downloading(progress) => match event {
                GetEvent::Chunk(Ok(chunk)) => {
                    let mut progress = progress;
                    progress.record(chunk.len());
                    (
                        GetSession { key, range, stage: GetStage::Downloading(progress) },
                        GetAction::Write(chunk),
                    )
                },
                GetEvent::Chunk(Err(cause)) => (
                    GetSession {
                        key,
                        range,
                        stage: GetStage::Failed(Error::DownloadFailed { cause }),
                    },
                    GetAction::Stop,
                ),
                GetEvent::StreamEnded => (
                    GetSession { key, range, stage: GetStage::Done },
                    GetAction::Stop,
                ),
                _ => (
                    GetSession { key, range, stage: GetStage::Failed(Error::UnexpectedEvent) },
                    GetAction::Stop,
                ),
            },
        }
    }
}

} // verus!
