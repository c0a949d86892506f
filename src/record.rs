use vstd::prelude::*;
use crate::account::AccountKey;
use crate::schedule::{total, Schedule};

verus! {

/// A vesting record: who receives, who deposited, which asset, and the
/// release schedules, whose number is fixed when the record is created.
#[derive(Debug)]
pub struct VestingContract {
    pub dst_token_account: AccountKey,
    pub src_token_account: AccountKey,
    pub mint_address: AccountKey,
    pub schedules: Vec<Schedule>,
}

impl VestingContract {
    /// The amounts still held add up to a balance that a token account can hold.
    pub open spec fn well_formed(&self) -> bool {
        total(self.schedules@) <= u64::MAX
    }

    /// Bytes of the stored record before its schedules: the type tag, three
    /// keys and the schedule count.
    #[allow(non_snake_case)]
    pub fn LEN() -> (r: usize)
        ensures
            r == 108,
    {
        8 + 32 + 32 + 32 + 4
    }
}

} // verus!
