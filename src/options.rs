use vstd::prelude::*;

use crate::error::Error;
use crate::signer::GasParams;

verus! {

/// How long a submission waits for the transaction to propagate.
#[derive(Debug, Clone, Copy, PartialEq, Eq)]
pub enum BroadcastMode {
    /// Return once the local node has queued the transaction.
    Async,
    /// Wait for local validation.
    Sync,
    /// Wait for finalization.
    Commit,
}

impl Default for BroadcastMode {
    fn default() -> (r: BroadcastMode)
        ensures
            r == BroadcastMode::Commit,
    {
        BroadcastMode::Commit
    }
}

/// The ledger state a query is evaluated against.
#[derive(Debug, Clone, Copy, PartialEq, Eq)]
pub enum QueryHeight {
    /// The latest committed state.
    Committed,
    /// The state including pending transactions.
    Pending,
    /// The state at a given block height.
    Height(u64),
}

impl Default for QueryHeight {
    fn default() -> (r: QueryHeight)
        ensures
            r == QueryHeight::Committed,
    {
        QueryHeight::Committed
    }
}

/// Arguments common to transactions.
#[derive(Debug, Clone, Copy, PartialEq, Eq, Default)]
pub struct TxParams {
    /// Sender account sequence (nonce).
    pub sequence: Option<u64>,
    /// Gas params.
    pub gas_params: GasParams,
}

/// Object add options.
#[derive(Debug, Clone, Copy, PartialEq, Eq, Default)]
pub struct AddOptions {
    /// Overwrite the object if it already exists.
    pub overwrite: bool,
    /// Broadcast mode for the transaction.
    pub broadcast_mode: BroadcastMode,
    /// Gas params for the transaction.
    pub gas_params: GasParams,
    /// Whether to show progress-related output.
    pub show_progress: bool,
}

/// Object delete options.
#[derive(Debug, Clone, Copy, PartialEq, Eq, Default)]
pub struct DeleteOptions {
    /// Broadcast mode for the transaction.
    pub broadcast_mode: BroadcastMode,
    /// Gas params for the transaction.
    pub gas_params: GasParams,
}

/// Options for funding an account.
#[derive(Debug, Clone, Copy, PartialEq, Eq, Default)]
pub struct FundOptions {
    /// Broadcast mode for the transaction.
    pub broadcast_mode: BroadcastMode,
    /// Gas params for the transaction.
    pub gas_params: GasParams,
}

/// Object get options.
#[derive(Debug, Clone, PartialEq, Eq, Default)]
pub struct GetOptions {
    /// Optional inclusive byte range, `start-end`, `start-` or `-suffix`.
    pub range: Option<String>,
    /// Query block height.
    pub height: QueryHeight,
    /// Whether to show progress-related output.
    pub show_progress: bool,
}

/// Object list options.
#[derive(Debug, Clone, PartialEq, Eq)]
pub struct QueryOptions {
    /// The prefix to filter objects by.
    pub prefix: String,
    /// The delimiter used to define object hierarchy.
    pub delimiter: String,
    /// The offset to start listing objects from.
    pub offset: u64,
    /// The maximum number of objects to list.
    pub limit: u64,
    /// Query block height.
    pub height: QueryHeight,
}

impl Default for QueryOptions {
    fn default() -> (r: QueryOptions)
        ensures
            r.prefix@ == Seq::<char>::empty(),
            r.delimiter@ == seq!['/'],
            r.offset == 0,
            r.limit == 0,
            r.height == QueryHeight::Committed,
    {
        let delimiter = "/".to_owned();
        proof {
            reveal_strlit("/");
        }
        QueryOptions {
            prefix: String::new(),
            delimiter,
            offset: 0,
            limit: 0,
            height: QueryHeight::Committed,
        }
    }
}

/// How many times the receipt of a submitted transaction is polled for.
pub const TRANSACTION_RECEIPT_RETRIES: u64 = 200;

/// What to do after a poll for a transaction receipt.
#[derive(Debug, Clone, Copy, PartialEq, Eq)]
pub enum PollStep {
    /// The receipt arrived.
    Received,
    /// Poll again.
    Retry,
    /// The poll budget is spent: the outcome is unknown.
    Unavailable,
}

/// The decision after poll number `attempt` (counting from one) of a budget
/// of `max_retries` polls.
pub fn poll_step(attempt: u64, max_retries: u64, received: bool) -> (r: PollStep)
    ensures
        received ==> r == PollStep::Received,
        !received && attempt < max_retries ==> r == PollStep::Retry,
        !received && attempt >= max_retries ==> r == PollStep::Unavailable,
{
    if received {
        PollStep::Received
    } else if attempt < max_retries {
        PollStep::Retry
    } else {
        PollStep::Unavailable
    }
}

/// The receipt once polling has ended: where the poll budget ran out, the
/// outcome of the transaction is unknown.
pub fn receipt_or_unavailable<T>(receipt: Option<T>) -> (r: Result<T, Error>)
    ensures
        match receipt {
            Some(t) => r == Ok::<T, Error>(t),
            None => r == Err::<T, Error>(Error::ReceiptUnavailable),
        },
{
    match receipt {
        Some(t) => Ok(t),
        None => Err(Error::ReceiptUnavailable),
    }
}

} // verus!
