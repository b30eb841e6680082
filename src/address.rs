use vstd::prelude::*;
use vstd::string::StrSliceExecFns;

use crate::bytes::copy_bytes;

verus! {

/// Namespace of delegated addresses that wrap an Ethereum address.
pub const EAM_NAMESPACE: u64 = 10;

/// Length in bytes of an Ethereum address.
pub const ETH_ADDRESS_LEN: usize = 20;

/// An account or actor address on the ledger.
#[derive(Debug, Clone, PartialEq, Eq)]
pub enum Address {
    /// An actor ID.
    Id(u64),
    /// An address that a namespace actor assigned.
    Delegated { namespace: u64, subaddress: Vec<u8> },
}

/// What an address says, as plain values.
pub enum AddressView {
    Id(u64),
    Delegated(u64, Seq<u8>),
}

impl View for Address {
    type V = AddressView;

    open spec fn view(&self) -> AddressView {
        match self {
            Address::Id(id) => AddressView::Id(*id),
            Address::Delegated { namespace, subaddress } => AddressView::Delegated(
                *namespace,
                subaddress@,
            ),
        }
    }
}

impl Address {
    /// A copy of the address.
    pub fn copy(&self) -> (r: Address)
        ensures
            r@ == self@,
    {
        match self {
            Address::Id(id) => Address::Id(*id),
            Address::Delegated { namespace, subaddress } => Address::Delegated {
                namespace: *namespace,
                subaddress: copy_bytes(subaddress),
            },
        }
    }
}

/// Why a textual address was refused.
#[derive(Debug, Clone, Copy, PartialEq, Eq)]
pub enum AddressError {
    /// Not 40 hexadecimal digits, with or without a leading `0x`.
    InvalidEthAddress,
    /// Not a delegated address that wraps an Ethereum address.
    NotEthAddress,
}

/// The value of a hexadecimal digit of either case, or -1.
pub open spec fn hex_value(c: char) -> int {
    if '0' <= c && c <= '9' {
        c as int - '0' as int
    } else if 'a' <= c && c <= 'f' {
        c as int - 'a' as int + 10
    } else if 'A' <= c && c <= 'F' {
        c as int - 'A' as int + 10
    } else {
        -1
    }
}

/// The hex digits of an Ethereum address text, after an optional `0x`.
pub open spec fn eth_digits(s: Seq<char>) -> Seq<char> {
    if s.len() >= 2 && s[0] == '0' && s[1] == 'x' {
        s.subrange(2, s.len() as int)
    } else {
        s
    }
}

pub open spec fn is_eth_text(s: Seq<char>) -> bool {
    let d = eth_digits(s);
    &&& d.len() == 2 * ETH_ADDRESS_LEN
    &&& forall|i: int| 0 <= i < d.len() ==> hex_value(#[trigger] d[i]) >= 0
}

/// The bytes that pairs of hex digits denote, high nibble first.
pub open spec fn hex_bytes(d: Seq<char>) -> Seq<u8> {
    Seq::new(d.len() / 2, |i: int| (hex_value(d[2 * i]) * 16 + hex_value(d[2 * i + 1])) as u8)
}

/// `r` is the delegated address that the Ethereum address text `s` denotes,
/// or the refusal of a text that is none.
pub open spec fn is_eth_address_of(r: Result<Address, AddressError>, s: Seq<char>) -> bool {
    if is_eth_text(s) {
        r is Ok && match r->Ok_0 {
            Address::Delegated { namespace, subaddress } => namespace == EAM_NAMESPACE
                && subaddress@ == hex_bytes(eth_digits(s)),
            _ => false,
        }
    } else {
        r == Err::<Address, AddressError>(AddressError::InvalidEthAddress)
    }
}

fn hex_digit(c: char) -> (r: Option<u8>)
    ensures
        r is Some <==> hex_value(c) >= 0,
        r is Some ==> r->0 as int == hex_value(c),
{
    if '0' <= c && c <= '9' {
        Some((c as u32 - '0' as u32) as u8)
    } else if 'a' <= c && c <= 'f' {
        Some((c as u32 - 'a' as u32 + 10) as u8)
    } else if 'A' <= c && c <= 'F' {
        Some((c as u32 - 'A' as u32 + 10) as u8)
    } else {
        None
    }
}

/// Parses an address given in Ethereum form (40 hex digits, `0x` optional)
/// into the delegated ledger address that wraps it.
pub fn parse_address(s: &str) -> (r: Result<Address, AddressError>)
    ensures
        is_eth_address_of(r, s@),
{
    let n = s.unicode_len();
    let from: usize = if n >= 2 && s.get_char(0) == '0' && s.get_char(1) == 'x' {
        2
    } else {
        0
    };
    let ghost d = eth_digits(s@);
    assert(d =~= s@.subrange(from as int, n as int));
    if n - from != 2 * ETH_ADDRESS_LEN {
        return Err(AddressError::InvalidEthAddress);
    }
    let mut bytes: Vec<u8> = Vec::new();
    let mut k: usize = 0;
    while k < ETH_ADDRESS_LEN
        invariant
            n == s@.len(),
            n - from == 2 * ETH_ADDRESS_LEN,
            d =~= s@.subrange(from as int, n as int),
            k <= ETH_ADDRESS_LEN,
            bytes@.len() == k,
            forall|j: int| 0 <= j < 2 * k ==> hex_value(#[trigger] d[j]) >= 0,
            forall|j: int| 0 <= j < k ==> #[trigger] bytes@[j] == hex_bytes(d)[j],
        decreases ETH_ADDRESS_LEN - k,
    {
        let hi = hex_digit(s.get_char(from + 2 * k));
        let lo = hex_digit(s.get_char(from + 2 * k + 1));
        assert(d[2 * k as int] == s@[from + 2 * k]);
        assert(d[2 * k + 1] == s@[from + 2 * k + 1]);
        match (hi, lo) {
            (Some(h), Some(l)) => {
                bytes.push(h * 16 + l);
            },
            _ => {
                return Err(AddressError::InvalidEthAddress);
            },
        }
        k = k + 1;
    }
    assert(bytes@ =~= hex_bytes(d));
    Ok(Address::Delegated { namespace: EAM_NAMESPACE, subaddress: bytes })
}

/// The Ethereum address that a delegated address wraps.
pub fn get_delegated_address(a: &Address) -> (r: Result<Vec<u8>, AddressError>)
    ensures
        match a {
            Address::Delegated { namespace, subaddress } => if *namespace == EAM_NAMESPACE
                && subaddress@.len() == ETH_ADDRESS_LEN {
                r is Ok && r->Ok_0@ == subaddress@
            } else {
                r == Err::<Vec<u8>, AddressError>(AddressError::NotEthAddress)
            },
            _ => r == Err::<Vec<u8>, AddressError>(AddressError::NotEthAddress),
        },
{
    match a {
        Address::Delegated { namespace, subaddress } => {
            if *namespace == EAM_NAMESPACE && subaddress.len() == ETH_ADDRESS_LEN {
                Ok(copy_bytes(subaddress))
            } else {
                Err(AddressError::NotEthAddress)
            }
        },
        _ => Err(AddressError::NotEthAddress),
    }
}

} // verus!
