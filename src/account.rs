use vstd::prelude::*;

verus! {

broadcast use vstd::array::group_array_axioms;

/// A 32-byte account or asset identity.
#[derive(Clone, Copy, Debug)]
pub struct AccountId {
    pub bytes: [u8; 32],
}

impl View for AccountId {
    type V = Seq<u8>;

    open spec fn view(&self) -> Seq<u8> {
        self.bytes@
    }
}

impl AccountId {
    pub fn new(bytes: [u8; 32]) -> (r: AccountId)
        ensures
            r.bytes == bytes,
    {
        AccountId { bytes }
    }

    /// Whether two identities are the same, byte for byte.
    pub fn same(&self, other: &AccountId) -> (r: bool)
        ensures
            r == (*self == *other),
    {
        let mut i: usize = 0;
        while i < 32
            invariant
                0 <= i <= 32,
                forall|j: int| 0 <= j < i ==> self.bytes@[j] == other.bytes@[j],
            decreases 32 - i,
        {
            if self.bytes[i] != other.bytes[i] {
                return false;
            }
            i = i + 1;
        }
        assert(self.bytes =~= other.bytes);
        true
    }
}

/// Two identities are equal exactly when their bytes are.
pub proof fn lemma_view_injective(a: AccountId, b: AccountId)
    ensures
        (a@ == b@) == (a == b),
{
    if a@ == b@ {
        assert(a.bytes =~= b.bytes);
    }
}

/// A balance of one asset, held by one owner.
#[derive(Clone, Copy, Debug)]
pub struct TokenAccount {
    /// The identity of this balance account.
    pub key: AccountId,
    /// The asset type that the balance counts.
    pub mint: AccountId,
    /// The authority allowed to move funds out of it.
    pub owner: AccountId,
    pub amount: u64,
}

/// The same account with its balance replaced.
pub open spec fn with_amount(a: TokenAccount, amount: u64) -> TokenAccount {
    TokenAccount { key: a.key, mint: a.mint, owner: a.owner, amount }
}

/// An identity that takes part in an operation, and whether it signed it.
#[derive(Clone, Copy, Debug)]
pub struct SignerInfo {
    pub key: AccountId,
    pub is_signer: bool,
}

} // verus!
