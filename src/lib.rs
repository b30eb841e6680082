//! Client-side logic for a tiered object store: small objects live on the
//! ledger itself, large ones in a content-addressed blob network that the
//! ledger points at by identifier.

mod bytes;
mod text;

// Errors and options shared by every operation.
pub mod error;
pub mod options;

// Byte ranges, content identifiers and addresses.
pub mod range;
pub mod identify;
pub mod address;

// Tiering, transaction parameters and descriptor resolution; the machine type.
pub mod objectstore;
// The signing capability and the read-only signer.
pub mod signer;
// Ingest of detached objects and their announcement.
pub mod upload;
// Step-by-step add and get, for a driver that performs the outside work.
pub mod session;

// An in-memory ledger and blob network, and the laws of the store.
pub mod ledger;
pub mod store;

// Network presets, storage statistics and fee estimation.
pub mod network;
pub mod storage;
pub mod fees;
