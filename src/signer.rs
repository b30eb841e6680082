use vstd::prelude::*;

use crate::address::Address;
use crate::error::Error;
use crate::objectstore::{DeleteParams, ObjectKind, PutParams};

verus! {

/// A call on an object-store machine.
#[derive(Debug, Clone, PartialEq, Eq)]
pub enum Call {
    Put(PutParams),
    Delete(DeleteParams),
}

/// What a put stores, as plain values.
pub enum KindView {
    Internal(Seq<u8>),
    External(Seq<u8>),
}

/// A call, as plain values.
pub enum CallView {
    Put(Seq<char>, KindView, bool),
    Delete(Seq<char>),
}

impl View for Call {
    type V = CallView;

    open spec fn view(&self) -> CallView {
        match self {
            Call::Put(p) => CallView::Put(
                p.key@,
                match p.kind {
                    ObjectKind::Internal(b) => KindView::Internal(b@),
                    ObjectKind::External(c) => KindView::External(c@),
                },
                p.overwrite,
            ),
            Call::Delete(d) => CallView::Delete(d.key@),
        }
    }
}

/// Gas settings of a transaction, in atto units.
#[derive(Debug, Clone, Copy, PartialEq, Eq, Default)]
pub struct GasParams {
    pub gas_limit: u64,
    pub gas_fee_cap: u128,
    pub gas_premium: u128,
}

/// The capability to sign transactions and messages for an account.
pub trait Signer {
    /// Whether the signer holds the key material that signing needs.
    spec fn holds_key(&self) -> bool;

    /// The serialized signed transaction that this signer makes, in its
    /// present state, for `call` to the machine at `to` with `gas`.
    spec fn tx_message(&self, to: Address, call: Call, gas: GasParams) -> Vec<u8>;

    /// The serialized signed message that this signer makes for `call` to the
    /// machine at `to`, without submitting it.
    spec fn auth_message(&self, to: Address, call: Call) -> Vec<u8>;

    /// The chain ID of the signer's account.
    spec fn chain(&self) -> u64;

    /// The chain ID of the subnet the signer is configured for, if any.
    spec fn subnet_chain(&self) -> Option<u64>;

    /// The account address that signs.
    fn address(&self) -> Address;

    /// The secret key, where the signer holds one.
    fn secret_key(&self) -> (r: Option<Vec<u8>>)
        ensures
            r is Some <==> self.holds_key(),
    ;

    /// The chain the signatures are bound to.
    fn chain_id(&self) -> (r: u64)
        ensures
            r == self.chain(),
    ;

    /// The chain ID of the subnet the signer is configured for, if any.
    fn subnet_chain_id(&self) -> (r: Option<u64>)
        ensures
            r == self.subnet_chain(),
    ;

    /// Signs a transaction sending `call` to the machine at `to`; the result is
    /// the serialized signed message.
    fn transaction(&mut self, to: &Address, call: &Call, gas: &GasParams) -> (r: Result<
        Vec<u8>,
        Error,
    >)
        ensures
            final(self).holds_key() == old(self).holds_key(),
            !old(self).holds_key() ==> r == Err::<Vec<u8>, Error>(Error::SigningDenied),
            r is Ok ==> r->Ok_0 == old(self).tx_message(*to, *call, *gas),
    ;

    /// Signs `call` to the machine at `to` without submitting it, as the
    /// authorization handed to the staging API.
    fn sign_message(&self, to: &Address, call: &Call) -> (r: Result<Vec<u8>, Error>)
        ensures
            !self.holds_key() ==> r == Err::<Vec<u8>, Error>(Error::SigningDenied),
            r is Ok ==> r->Ok_0 == self.auth_message(*to, *call),
    ;

    /// Checks `signature` over `message` for this account.
    fn verify_message(&self, message: &[u8], signature: &[u8]) -> (r: Result<(), Error>)
        ensures
            !self.holds_key() ==> r == Err::<(), Error>(Error::SigningDenied),
    ;
}

/// A read-only signer: it holds no key and refuses every mutating call.
#[derive(Debug, Clone, Copy, PartialEq, Eq)]
pub struct Void {}

impl Signer for Void {
    open spec fn holds_key(&self) -> bool {
        false
    }

    closed spec fn tx_message(&self, to: Address, call: Call, gas: GasParams) -> Vec<u8> {
        arbitrary()
    }

    closed spec fn auth_message(&self, to: Address, call: Call) -> Vec<u8> {
        arbitrary()
    }

    open spec fn chain(&self) -> u64 {
        0
    }

    open spec fn subnet_chain(&self) -> Option<u64> {
        None
    }

    fn address(&self) -> (r: Address)
        ensures
            r == Address::Id(0),
    {
        Address::Id(0)
    }

    fn secret_key(&self) -> (r: Option<Vec<u8>>) {
        None
    }

    fn chain_id(&self) -> (r: u64) {
        0
    }

    fn subnet_chain_id(&self) -> (r: Option<u64>) {
        None
    }

    fn transaction(&mut self, to: &Address, call: &Call, gas: &GasParams) -> (r: Result<
        Vec<u8>,
        Error,
    >) {
        Err(Error::SigningDenied)
    }

    fn sign_message(&self, to: &Address, call: &Call) -> (r: Result<Vec<u8>, Error>) {
        Err(Error::SigningDenied)
    }

    fn verify_message(&self, message: &[u8], signature: &[u8]) -> (r: Result<(), Error>) {
        Err(Error::SigningDenied)
    }
}

} // verus!
