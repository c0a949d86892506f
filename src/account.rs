use vstd::prelude::*;

verus! {

/// The 32-byte identity of an account on the ledger.
#[derive(Clone, Copy, Debug, Eq)]
pub struct AccountKey {
    pub bytes: [u8; 32],
}

/// What the instructions read of a token account: its address, the asset it
/// holds and the key allowed to move its balance.
#[derive(Clone, Copy, Debug, PartialEq, Eq)]
pub struct TokenAccountRef {
    pub key: AccountKey,
    pub mint: AccountKey,
    pub owner: AccountKey,
}

/// A keyless authority: the address derived from a seed and the bump that
/// pushed it off the curve.
#[derive(Clone, Copy, Debug, PartialEq, Eq)]
pub struct Authority {
    pub key: AccountKey,
    pub bump: u8,
}

/// A transfer that an instruction asks of the token ledger. With `signer_bump`
/// set, the record's own derived authority signs with the seeds
/// `[seed, [bump]]`; otherwise `authority` signs as an ordinary signer.
#[derive(Clone, Copy, Debug, PartialEq, Eq)]
pub struct TransferOrder {
    pub from: AccountKey,
    pub to: AccountKey,
    pub authority: AccountKey,
    pub amount: u64,
    pub signer_bump: Option<u8>,
}

impl PartialEq for AccountKey {
    fn eq(&self, other: &AccountKey) -> (r: bool) {
        same_key(self, other)
    }
}

impl vstd::std_specs::cmp::PartialEqSpecImpl for AccountKey {
    open spec fn obeys_eq_spec() -> bool {
        true
    }

    open spec fn eq_spec(&self, other: &AccountKey) -> bool {
        *self == *other
    }
}

/// Whether two keys name the same account.
pub fn same_key(a: &AccountKey, b: &AccountKey) -> (r: bool)
    ensures
        r == (*a == *b),
{
    let mut i: usize = 0;
    while i < 32
        invariant
            i <= 32,
            forall|j: int| 0 <= j < i ==> a.bytes@[j] == b.bytes@[j],
        decreases 32 - i,
    {
        if a.bytes[i] != b.bytes[i] {
            return false;
        }
        i = i + 1;
    }
    proof {
        broadcast use vstd::array::axiom_array_ext_equal;
        assert(a.bytes =~= b.bytes);
    }
    true
}

} // verus!
