use vstd::prelude::*;
use crate::account::{same_key, AccountKey, Authority, TokenAccountRef, TransferOrder};
use crate::authority::{is_derivation, try_find_program_address};
use crate::error::ErrorCode;
use crate::record::VestingContract;
use crate::schedule::{
    after_release, due_total, lemma_after_release, lemma_total_splits, locked_total, release_due,
    tally, total, Schedule,
};

verus! {

/// The accounts that creating a record reads.
#[derive(Clone, Copy, Debug)]
pub struct Create {
    /// The depositor, who signs.
    pub initializer: AccountKey,
    /// The escrow account that the new record's derived authority controls.
    pub vesting_token_account: AccountKey,
    /// The depositor's token account, which funds the escrow.
    pub src_token_account: TokenAccountRef,
    /// The recipient's token account.
    pub dst_token_account: TokenAccountRef,
    /// The asset being vested.
    pub mint_address: AccountKey,
}

/// The accounts that an unlock reads.
#[derive(Clone, Copy, Debug)]
pub struct Unlock {
    /// The record's address, derived from its seed.
    pub vesting_contract: AccountKey,
    /// The escrow account.
    pub vesting_token_account: TokenAccountRef,
    /// The token account that is to receive the released balance.
    pub dst_token_account: AccountKey,
}

/// The accounts that a change of destination reads.
#[derive(Clone, Copy, Debug)]
pub struct ChangeDestination {
    /// The key that signs: it must own the current destination.
    pub current_dst_token_account_owner: AccountKey,
    /// The destination that the record names now.
    pub current_dst_token_account: TokenAccountRef,
    /// The destination to name from now on.
    pub new_dst_token_account: TokenAccountRef,
}

/// The accounts that closing a record reads.
#[derive(Clone, Copy, Debug)]
pub struct CloseAccount {
    /// The depositor, who signs.
    pub initializer: AccountKey,
    /// The record's address, derived from its seed.
    pub vesting_contract: AccountKey,
    /// The escrow account.
    pub vesting_token_account: AccountKey,
    /// The depositor's token account, which gets the locked balance back.
    pub src_token_account: TokenAccountRef,
}

/// The sum of a list of amounts.
pub open spec fn sum(a: Seq<u64>) -> nat
    decreases a.len(),
{
    if a.len() == 0 {
        0
    } else {
        sum(a.drop_last()) + a.last() as nat
    }
}

/// The schedules built from release times and amounts of equal length.
pub open spec fn schedules_of(times: Seq<u64>, amounts: Seq<u64>) -> Seq<Schedule> {
    Seq::new(times.len(), |i: int| Schedule { release_time: times[i], amount: amounts[i] })
}

impl Create {
    /// The depositor owns the funding account and the recipient's account
    /// holds the vested asset.
    pub open spec fn accounts_valid(&self) -> bool {
        self.src_token_account.owner == self.initializer
            && self.dst_token_account.mint == self.mint_address
    }

    /// The deposit of `amount` from the depositor's account into escrow,
    /// signed by the depositor.
    pub open spec fn deposit(&self, amount: u64) -> TransferOrder {
        TransferOrder {
            from: self.src_token_account.key,
            to: self.vesting_token_account,
            authority: self.initializer,
            amount,
            signer_bump: None,
        }
    }

    /// Builds the transfer that moves `amount` into escrow.
    pub fn transfer_into_escrow(&self, amount: u64) -> (r: TransferOrder)
        ensures
            r == self.deposit(amount),
    {
        TransferOrder {
            from: self.src_token_account.key,
            to: self.vesting_token_account,
            authority: self.initializer,
            amount,
            signer_bump: None,
        }
    }
}

/// Why `create` refuses, if it does.
pub open spec fn create_error(accounts: Create, times: Seq<u64>, amounts: Seq<u64>) -> Option<ErrorCode> {
    if !accounts.accounts_valid() {
        Some(ErrorCode::AuthorizationMismatch)
    } else if times.len() != amounts.len() {
        Some(ErrorCode::InvalidIntervalInput)
    } else {
        None
    }
}

proof fn lemma_total_of_schedules(times: Seq<u64>, amounts: Seq<u64>)
    requires
        times.len() == amounts.len(),
    ensures
        total(schedules_of(times, amounts)) == sum(amounts),
    decreases times.len(),
{
    if times.len() > 0 {
        lemma_total_of_schedules(times.drop_last(), amounts.drop_last());
        assert(schedules_of(times, amounts).drop_last() =~= schedules_of(
            times.drop_last(),
            amounts.drop_last(),
        ));
    }
}

proof fn lemma_sum_prefix_monotonic(a: Seq<u64>, i: int, j: int)
    requires
        0 <= i <= j <= a.len(),
    ensures
        sum(a.take(i)) <= sum(a.take(j)),
    decreases j - i,
{
    if i < j {
        lemma_sum_prefix_monotonic(a, i, j - 1);
        assert(a.take(j).drop_last() =~= a.take(j - 1));
    }
}

/// Opens a vesting record with one schedule per release time and amount, and
/// the deposit of all the amounts into escrow.
pub fn create(accounts: &Create, release_interval: Vec<u64>, amount_interval: Vec<u64>) -> (r: Result<
    (VestingContract, TransferOrder),
    ErrorCode,
>)
    requires
        sum(amount_interval@) <= u64::MAX,
    ensures
        r is Err <==> create_error(*accounts, release_interval@, amount_interval@) is Some,
        r is Err ==> r->Err_0 == create_error(*accounts, release_interval@, amount_interval@)->0,
        r is Ok ==> ({
            let (rec, order) = r->Ok_0;
            &&& rec.dst_token_account == accounts.dst_token_account.key
            &&& rec.src_token_account == accounts.src_token_account.key
            &&& rec.mint_address == accounts.mint_address
            &&& rec.schedules@ == schedules_of(release_interval@, amount_interval@)
            &&& rec.well_formed()
            &&& total(rec.schedules@) == sum(amount_interval@)
            &&& order == accounts.deposit(sum(amount_interval@) as u64)
        }),
{
    if !same_key(&accounts.src_token_account.owner, &accounts.initializer) || !same_key(
        &accounts.dst_token_account.mint,
        &accounts.mint_address,
    ) {
        return Err(ErrorCode::AuthorizationMismatch);
    }
    if release_interval.len() != amount_interval.len() {
        return Err(ErrorCode::InvalidIntervalInput);
    }
    let n = release_interval.len();
    let mut schedules: Vec<Schedule> = Vec::with_capacity(n);
    let mut total_amount: u64 = 0;
    let mut i: usize = 0;
    proof {
        lemma_sum_prefix_monotonic(amount_interval@, 0, n as int);
        assert(amount_interval@.take(n as int) =~= amount_interval@);
    }
    while i < n
        invariant
            n == release_interval@.len(),
            n == amount_interval@.len(),
            i <= n,
            sum(amount_interval@) <= u64::MAX,
            schedules@ == schedules_of(release_interval@.take(i as int), amount_interval@.take(i as int)),
            total_amount == sum(amount_interval@.take(i as int)),
        decreases n - i,
    {
        proof {
            assert(amount_interval@.take(i + 1).drop_last() =~= amount_interval@.take(i as int));
            lemma_sum_prefix_monotonic(amount_interval@, i + 1, n as int);
            assert(amount_interval@.take(n as int) =~= amount_interval@);
        }
        schedules.push(Schedule { release_time: release_interval[i], amount: amount_interval[i] });
        total_amount = total_amount + amount_interval[i];
        i = i + 1;
        proof {
            assert(schedules@ =~= schedules_of(
                release_interval@.take(i as int),
                amount_interval@.take(i as int),
            ));
        }
    }
    proof {
        assert(release_interval@.take(n as int) =~= release_interval@);
        assert(amount_interval@.take(n as int) =~= amount_interval@);
        lemma_total_of_schedules(release_interval@, amount_interval@);
    }
    let record = VestingContract {
        dst_token_account: accounts.dst_token_account.key,
        src_token_account: accounts.src_token_account.key,
        mint_address: accounts.mint_address,
        schedules,
    };
    let order = accounts.transfer_into_escrow(total_amount);
    Ok((record, order))
}

/// The derived authority is the record's address.
pub open spec fn authority_matches(authority: Option<Authority>, record_key: AccountKey) -> bool {
    authority is Some && authority->0.key == record_key
}

/// A payout of `amount` from escrow, signed by the record's derived authority.
pub open spec fn payout(
    escrow: AccountKey,
    to: AccountKey,
    record_key: AccountKey,
    amount: u64,
    authority: Option<Authority>,
) -> TransferOrder {
    TransferOrder {
        from: escrow,
        to,
        authority: record_key,
        amount,
        signer_bump: Some(authority->0.bump),
    }
}

/// What an unlock at `now` answers, given the record and the authority
/// derived from its seed.
pub open spec fn unlock_result(
    record: VestingContract,
    accounts: Unlock,
    now: u64,
    authority: Option<Authority>,
) -> Result<TransferOrder, ErrorCode> {
    if !authority_matches(authority, accounts.vesting_contract)
        || record.dst_token_account != accounts.dst_token_account
        || accounts.vesting_token_account.mint != record.mint_address
        || accounts.vesting_token_account.owner != accounts.vesting_contract {
        Err(ErrorCode::AuthorizationMismatch)
    } else if due_total(record.schedules@, now) == 0 {
        Err(ErrorCode::ZeroUnlockAmount)
    } else {
        Ok(
            payout(
                accounts.vesting_token_account.key,
                accounts.dst_token_account,
                accounts.vesting_contract,
                due_total(record.schedules@, now) as u64,
                authority,
            ),
        )
    }
}

/// What an unlock does to the record: on success every due schedule is
/// zeroed; the keys never change, and a refusal changes nothing.
pub open spec fn unlock_effect(
    before: VestingContract,
    after: VestingContract,
    now: u64,
    r: Result<TransferOrder, ErrorCode>,
) -> bool {
    &&& after.dst_token_account == before.dst_token_account
    &&& after.src_token_account == before.src_token_account
    &&& after.mint_address == before.mint_address
    &&& r is Ok ==> after.schedules@ == after_release(before.schedules@, now)
    &&& r is Err ==> after.schedules@ == before.schedules@
}

/// Releases every due schedule of the record, given the authority derived
/// from its seed, and returns the payout to the recipient.
pub fn settle_unlock(
    record: &mut VestingContract,
    accounts: &Unlock,
    now: u64,
    authority: Option<Authority>,
) -> (r: Result<TransferOrder, ErrorCode>)
    requires
        old(record).well_formed(),
    ensures
        r == unlock_result(*old(record), *accounts, now, authority),
        unlock_effect(*old(record), *final(record), now, r),
        final(record).well_formed(),
{
    let bump = match authority {
        Some(a) => {
            if !same_key(&a.key, &accounts.vesting_contract) {
                return Err(ErrorCode::AuthorizationMismatch);
            }
            a.bump
        },
        None => {
            return Err(ErrorCode::AuthorizationMismatch);
        },
    };
    if !same_key(&record.dst_token_account, &accounts.dst_token_account) || !same_key(
        &accounts.vesting_token_account.mint,
        &record.mint_address,
    ) || !same_key(&accounts.vesting_token_account.owner, &accounts.vesting_contract) {
        return Err(ErrorCode::AuthorizationMismatch);
    }
    let ghost before = record.schedules@;
    let (due, _locked) = tally(&record.schedules, now);
    if due == 0 {
        return Err(ErrorCode::ZeroUnlockAmount);
    }
    let released = release_due(&mut record.schedules, now);
    proof {
        lemma_after_release(before, now);
        lemma_total_splits(before, now);
    }
    Ok(TransferOrder {
        from: accounts.vesting_token_account.key,
        to: accounts.dst_token_account,
        authority: accounts.vesting_contract,
        amount: released,
        signer_bump: Some(bump),
    })
}

/// Releases every due schedule of the record whose seed is `seed`: derives
/// the record's authority under `program_id`, then settles as
/// `settle_unlock` does with it.
pub fn unlock(
    record: &mut VestingContract,
    accounts: &Unlock,
    seed: &[u8],
    program_id: &AccountKey,
    now: u64,
) -> (r: Result<TransferOrder, ErrorCode>)
    requires
        old(record).well_formed(),
    ensures
        exists|a: Option<Authority>|
            is_derivation(seed@, *program_id, a) && r == unlock_result(*old(record), *accounts, now, a),
        unlock_effect(*old(record), *final(record), now, r),
        final(record).well_formed(),
        seed@.len() > 32 ==> r == Err::<TransferOrder, ErrorCode>(ErrorCode::AuthorizationMismatch),
{
    let ghost before = *record;
    let authority = try_find_program_address(seed, program_id);
    let r = settle_unlock(record, accounts, now, authority);
    assert(is_derivation(seed@, *program_id, authority) && r == unlock_result(before, *accounts, now, authority));
    r
}

/// What a change of destination answers.
pub open spec fn change_destination_result(record: VestingContract, accounts: ChangeDestination) -> Result<(), ErrorCode> {
    if record.dst_token_account != accounts.current_dst_token_account.key
        || accounts.current_dst_token_account.owner != accounts.current_dst_token_account_owner
        || accounts.new_dst_token_account.mint != record.mint_address {
        Err(ErrorCode::AuthorizationMismatch)
    } else {
        Ok(())
    }
}

/// Points the record at a new recipient. The owner of the current
/// destination signs; the new one's owner is not asked.
pub fn change_destination(record: &mut VestingContract, accounts: &ChangeDestination) -> (r: Result<(), ErrorCode>)
    ensures
        r == change_destination_result(*old(record), *accounts),
        final(record).dst_token_account == (if r is Ok {
            accounts.new_dst_token_account.key
        } else {
            old(record).dst_token_account
        }),
        final(record).src_token_account == old(record).src_token_account,
        final(record).mint_address == old(record).mint_address,
        final(record).schedules@ == old(record).schedules@,
{
    if !same_key(&record.dst_token_account, &accounts.current_dst_token_account.key) || !same_key(
        &accounts.current_dst_token_account.owner,
        &accounts.current_dst_token_account_owner,
    ) || !same_key(&accounts.new_dst_token_account.mint, &record.mint_address) {
        return Err(ErrorCode::AuthorizationMismatch);
    }
    record.dst_token_account = accounts.new_dst_token_account.key;
    Ok(())
}

/// What closing the record at `now` answers, given the authority derived
/// from its seed. On success the locked balance goes back to the depositor.
pub open spec fn close_result(
    record: VestingContract,
    accounts: CloseAccount,
    now: u64,
    authority: Option<Authority>,
) -> Result<TransferOrder, ErrorCode> {
    if !authority_matches(authority, accounts.vesting_contract)
        || record.src_token_account != accounts.src_token_account.key
        || accounts.src_token_account.owner != accounts.initializer
        || accounts.src_token_account.mint != record.mint_address {
        Err(ErrorCode::AuthorizationMismatch)
    } else if due_total(record.schedules@, now) > 0 {
        Err(ErrorCode::UnlockAmountFirst)
    } else {
        Ok(
            payout(
                accounts.vesting_token_account,
                accounts.src_token_account.key,
                accounts.vesting_contract,
                locked_total(record.schedules@, now) as u64,
                authority,
            ),
        )
    }
}

/// Decides the close of a record, given the authority derived from its seed:
/// refused while a due balance is unclaimed, else the return of the rest.
pub fn settle_close(
    record: &VestingContract,
    accounts: &CloseAccount,
    now: u64,
    authority: Option<Authority>,
) -> (r: Result<TransferOrder, ErrorCode>)
    requires
        record.well_formed(),
    ensures
        r == close_result(*record, *accounts, now, authority),
{
    let bump = match authority {
        Some(a) => {
            if !same_key(&a.key, &accounts.vesting_contract) {
                return Err(ErrorCode::AuthorizationMismatch);
            }
            a.bump
        },
        None => {
            return Err(ErrorCode::AuthorizationMismatch);
        },
    };
    if !same_key(&record.src_token_account, &accounts.src_token_account.key) || !same_key(
        &accounts.src_token_account.owner,
        &accounts.initializer,
    ) || !same_key(&accounts.src_token_account.mint, &record.mint_address) {
        return Err(ErrorCode::AuthorizationMismatch);
    }
    let (due, locked) = tally(&record.schedules, now);
    if due > 0 {
        return Err(ErrorCode::UnlockAmountFirst);
    }
    Ok(TransferOrder {
        from: accounts.vesting_token_account,
        to: accounts.src_token_account.key,
        authority: accounts.vesting_contract,
        amount: locked,
        signer_bump: Some(bump),
    })
}

/// Decides the close of the record whose seed is `seed`: derives the
/// record's authority under `program_id`, then decides as `settle_close`
/// does with it. On success the caller removes the record.
pub fn close_account(
    record: &VestingContract,
    accounts: &CloseAccount,
    seed: &[u8],
    program_id: &AccountKey,
    now: u64,
) -> (r: Result<TransferOrder, ErrorCode>)
    requires
        record.well_formed(),
    ensures
        exists|a: Option<Authority>|
            is_derivation(seed@, *program_id, a) && r == close_result(*record, *accounts, now, a),
        seed@.len() > 32 ==> r == Err::<TransferOrder, ErrorCode>(ErrorCode::AuthorizationMismatch),
{
    let authority = try_find_program_address(seed, program_id);
    settle_close(record, accounts, now, authority)
}

} // verus!
