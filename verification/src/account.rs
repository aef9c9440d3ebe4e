use vstd::prelude::*;

verus! {

/// The address of an account on the ledger: 32 bytes, compared byte by byte.
#[derive(Clone, Copy, Debug, PartialEq, Eq, Hash)]
pub struct AccountKey(pub [u8; 32]);

impl AccountKey {
    /// The key made of the given bytes.
    pub fn new(bytes: [u8; 32]) -> (key: AccountKey)
        ensures
            key == AccountKey(bytes),
    {
        AccountKey(bytes)
    }

    /// The bytes of the key.
    pub fn to_bytes(&self) -> (bytes: [u8; 32])
        ensures
            bytes == self.0,
    {
        self.0
    }

    /// Whether two keys name the same account.
    pub fn matches(&self, other: &AccountKey) -> (same: bool)
        ensures
            same <==> *self == *other,
    {
        let mut i: usize = 0;
        while i < 32
            invariant
                i <= 32,
                forall|j: int| 0 <= j < i ==> self.0[j] == other.0[j],
            decreases 32 - i,
        {
            if self.0[i] != other.0[i] {
                return false;
            }
            i += 1;
        }
        assert(self.0 =~= other.0);
        true
    }
}

/// A token account as the ledger shows it: which token it holds, who may
/// debit it, and how many units it holds.
#[derive(Clone, Copy, Debug, PartialEq, Eq)]
pub struct TokenAccount {
    pub key: AccountKey,
    pub mint: AccountKey,
    pub authority: AccountKey,
    pub amount: u64,
}

/// A token mint with the number of units outstanding.
#[derive(Clone, Copy, Debug, PartialEq, Eq)]
pub struct Mint {
    pub key: AccountKey,
    pub supply: u64,
}

/// The treasury: an account holding base currency.
#[derive(Clone, Copy, Debug, PartialEq, Eq)]
pub struct Treasury {
    pub key: AccountKey,
    pub lamports: u64,
}

} // verus!
