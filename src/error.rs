use vstd::prelude::*;

verus! {

/// Everything an object-store operation can fail with.
#[derive(Debug, Clone, PartialEq, Eq)]
pub enum Error {
    /// The object to add holds no bytes.
    EmptyObject,
    /// A range spec does not hold exactly one `-`.
    InvalidRangeFormat,
    /// A bound of a range spec is not an unsigned 64-bit decimal number.
    InvalidRangeNumber,
    /// A range spec names bytes outside the object, or ends before it starts.
    InvalidRange,
    /// No descriptor is stored under the key.
    ObjectNotFound { key: String },
    /// The descriptor points at a blob whose availability is not confirmed yet.
    ObjectNotResolved { key: String },
    /// The local blob node gave up ingesting the object.
    UploadAborted { reason: String },
    /// The ingest events arrived in an order the protocol does not allow.
    UnexpectedIngestEvent,
    /// The staging API did not accept the announcement of a blob.
    AnnounceFailed { cause: String },
    /// An operation received an event that its current stage does not expect.
    UnexpectedEvent,
    /// The signer holds no key material and cannot sign.
    SigningDenied,
    /// The signer is configured for no subnet, so no chain ID can be given.
    MissingSubnet,
    /// Parameters could not be serialized.
    EncodingError,
    /// The ledger rejected the transaction, or did not answer in time.
    TxFailed { cause: String },
    /// The streamed download broke off.
    DownloadFailed { cause: String },
    /// The receipt poll budget ran out: the outcome is unknown.
    ReceiptUnavailable,
}

} // verus!
