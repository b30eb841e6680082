use vstd::prelude::*;

verus! {

/// Storage usage of an account.
#[derive(Debug, Clone, PartialEq, Eq)]
pub struct Usage {
    /// Total size of all blobs managed by the account, in decimal.
    pub capacity_used: String,
}

impl Default for Usage {
    fn default() -> (r: Usage)
        ensures
            r.capacity_used@ == Seq::<char>::empty(),
    {
        Usage { capacity_used: String::new() }
    }
}

/// Subnet-wide storage statistics.
#[derive(Debug, Clone, PartialEq, Eq)]
pub struct StorageStats {
    /// The total free storage capacity of the subnet, in decimal.
    pub capacity_free: String,
    /// The total used storage capacity of the subnet, in decimal.
    pub capacity_used: String,
    /// Total number of actively stored blobs.
    pub num_blobs: u64,
    /// Total number of currently resolving blobs.
    pub num_resolving: u64,
}

/// Subnet-wide storage queries.
#[derive(Debug, Clone, Copy, PartialEq, Eq)]
pub struct Storage {}

impl Storage {
    /// The usage of an account from the ledger's answer: an account that the
    /// ledger does not know has used nothing.
    pub fn usage_of(account: Option<Usage>) -> (r: Usage)
        ensures
            match account {
                Some(u) => r == u,
                None => r.capacity_used@ == Seq::<char>::empty(),
            },
    {
        match account {
            Some(u) => u,
            None => Usage::default(),
        }
    }
}

} // verus!
