use vstd::prelude::*;
use crate::account::{Authority, TransferOrder};
use crate::error::ErrorCode;
use crate::instructions::{
    change_destination_result, close_result, unlock_effect, unlock_result, ChangeDestination,
    CloseAccount, Unlock,
};
use crate::record::VestingContract;
use crate::schedule::{
    due_total, is_eligible, lemma_after_release, lemma_due_positive_iff_eligible,
    lemma_total_splits, locked_total, total, Schedule,
};

verus! {

/// An operation on a live record.
pub enum Operation {
    /// An unlock with these accounts at this time, with the authority
    /// derived from the record's seed.
    Unlock(Unlock, u64, Option<Authority>),
    /// A change of destination with these accounts.
    ChangeDestination(ChangeDestination),
}

/// The amount released by an unlock's answer: its payout, or nothing.
pub open spec fn released_by(r: Result<TransferOrder, ErrorCode>) -> nat {
    match r {
        Ok(order) => order.amount as nat,
        Err(_) => 0,
    }
}

/// Conservation, one unlock at a time: what the unlock pays out is exactly
/// what leaves the schedules, so an escrow balance equal to the sum of the
/// amounts before stays equal to it after the payout.
pub proof fn lemma_unlock_conserves(
    before: VestingContract,
    after: VestingContract,
    accounts: Unlock,
    now: u64,
    authority: Option<Authority>,
    escrow_balance: nat,
)
    requires
        before.well_formed(),
        escrow_balance == total(before.schedules@),
        unlock_effect(before, after, now, unlock_result(before, accounts, now, authority)),
    ensures
        released_by(unlock_result(before, accounts, now, authority)) <= escrow_balance,
        escrow_balance - released_by(unlock_result(before, accounts, now, authority)) == total(
            after.schedules@,
        ),
{
    lemma_total_splits(before.schedules@, now);
    lemma_after_release(before.schedules@, now);
}

/// `after` is the record once `op` has been applied to `before`, as the
/// contracts of `unlock` and `change_destination` describe it.
pub open spec fn applies(before: VestingContract, op: Operation, after: VestingContract) -> bool {
    match op {
        Operation::Unlock(accounts, now, authority) => unlock_effect(
            before,
            after,
            now,
            unlock_result(before, accounts, now, authority),
        ),
        Operation::ChangeDestination(change) => {
            &&& after.dst_token_account == (if change_destination_result(before, change) is Ok {
                change.new_dst_token_account.key
            } else {
                before.dst_token_account
            })
            &&& after.src_token_account == before.src_token_account
            &&& after.mint_address == before.mint_address
            &&& after.schedules@ == before.schedules@
        },
    }
}

/// What `op` pays out of escrow when applied to `before`.
pub open spec fn paid_by(before: VestingContract, op: Operation) -> nat {
    match op {
        Operation::Unlock(accounts, now, authority) => released_by(
            unlock_result(before, accounts, now, authority),
        ),
        Operation::ChangeDestination(_) => 0,
    }
}

/// What a run of operations pays out, `states[i]` being the record before
/// `ops[i]`.
pub open spec fn paid_over(states: Seq<VestingContract>, ops: Seq<Operation>) -> nat
    decreases ops.len(),
{
    if ops.len() == 0 {
        0
    } else {
        paid_over(states, ops.drop_last()) + paid_by(states[ops.len() - 1], ops.last())
    }
}

/// Conservation over any run of operations, refused ones included: with the
/// escrow holding the sum of the amounts at the start, what was paid out
/// plus what the schedules still hold is that sum after every operation, so
/// the escrow balance equals the sum of the amounts at every point.
pub proof fn lemma_conservation(states: Seq<VestingContract>, ops: Seq<Operation>, deposit: nat)
    requires
        states.len() == ops.len() + 1,
        states[0].well_formed(),
        deposit == total(states[0].schedules@),
        forall|i: int| 0 <= i < ops.len() ==> applies(states[i], #[trigger] ops[i], states[i + 1]),
    ensures
        deposit == paid_over(states, ops) + total(states.last().schedules@),
        states.last().well_formed(),
    decreases ops.len(),
{
    if ops.len() > 0 {
        let n = ops.len() - 1;
        let prefix = states.drop_last();
        lemma_conservation(prefix, ops.drop_last(), deposit);
        assert(prefix.last() == states[n]);
        assert(ops.drop_last().len() == n);
        assert forall|i: int| 0 <= i < n implies applies(prefix[i], #[trigger] ops.drop_last()[i], prefix[i + 1]) by {
            assert(ops.drop_last()[i] == ops[i]);
            assert(applies(states[i], ops[i], states[i + 1]));
        }
        assert(paid_over(prefix, ops.drop_last()) == paid_over(states, ops.drop_last())) by {
            lemma_paid_over_prefix(states, ops.drop_last());
        }
        assert(applies(states[n], ops[n], states[n + 1]));
        match ops[n] {
            Operation::Unlock(accounts, now, authority) => {
                lemma_unlock_conserves(states[n], states[n + 1], accounts, now, authority, total(states[n].schedules@));
                lemma_total_splits(states[n].schedules@, now);
                lemma_after_release(states[n].schedules@, now);
            },
            Operation::ChangeDestination(_) => {},
        }
    }
}

proof fn lemma_paid_over_prefix(states: Seq<VestingContract>, ops: Seq<Operation>)
    requires
        ops.len() < states.len(),
    ensures
        paid_over(states.drop_last(), ops) == paid_over(states, ops),
    decreases ops.len(),
{
    if ops.len() > 0 {
        lemma_paid_over_prefix(states, ops.drop_last());
        assert(states.drop_last()[ops.len() - 1] == states[ops.len() - 1]);
    }
}

/// A close that goes through returns all that the schedules still hold.
pub proof fn lemma_close_returns_rest(
    record: VestingContract,
    accounts: CloseAccount,
    now: u64,
    authority: Option<Authority>,
)
    requires
        record.well_formed(),
        close_result(record, accounts, now, authority) is Ok,
    ensures
        close_result(record, accounts, now, authority)->Ok_0.amount == total(record.schedules@),
{
    lemma_total_splits(record.schedules@, now);
}

/// Unlocking twice at the same time: the second unlock finds nothing due and
/// is refused with `ZeroUnlockAmount`, with no payout.
pub proof fn lemma_unlock_idempotent(
    before: VestingContract,
    after: VestingContract,
    accounts: Unlock,
    now: u64,
    authority: Option<Authority>,
)
    requires
        before.well_formed(),
        unlock_result(before, accounts, now, authority) is Ok,
        unlock_effect(before, after, now, unlock_result(before, accounts, now, authority)),
    ensures
        unlock_result(after, accounts, now, authority) == Err::<TransferOrder, ErrorCode>(
            ErrorCode::ZeroUnlockAmount,
        ),
        released_by(unlock_result(after, accounts, now, authority)) == 0,
{
    lemma_after_release(before.schedules@, now);
}

/// The boundary of eligibility: a schedule whose release time equals `now`
/// is not yet due; one whose release time is a second earlier is.
pub proof fn lemma_eligibility_boundary(now: u64, amount: u64)
    ensures
        due_total(seq![Schedule { release_time: now, amount }], now) == 0,
        now > 0 ==> due_total(seq![Schedule { release_time: (now - 1) as u64, amount }], now)
            == amount,
{
    let a = seq![Schedule { release_time: now, amount }];
    assert(a.drop_last() =~= Seq::<Schedule>::empty());
    assert(a.last() == Schedule { release_time: now, amount });
    assert(due_total(a.drop_last(), now) == 0);
    if now > 0 {
        let b = seq![Schedule { release_time: (now - 1) as u64, amount }];
        assert(b.drop_last() =~= Seq::<Schedule>::empty());
        assert(b.last() == Schedule { release_time: (now - 1) as u64, amount });
        assert(due_total(b.drop_last(), now) == 0);
    }
}

/// With the right accounts, an unlock is refused with `ZeroUnlockAmount`, and
/// a close with `UnlockAmountFirst`, exactly when (respectively unless) no
/// schedule is eligible: due and still holding a balance.
pub proof fn lemma_refusals_follow_eligibility(
    record: VestingContract,
    accounts: Unlock,
    close: CloseAccount,
    now: u64,
    authority: Option<Authority>,
)
    ensures
        unlock_result(record, accounts, now, authority) != Err::<TransferOrder, ErrorCode>(
            ErrorCode::AuthorizationMismatch,
        ) ==> (unlock_result(record, accounts, now, authority) == Err::<TransferOrder, ErrorCode>(
            ErrorCode::ZeroUnlockAmount,
        ) <==> !exists|j: int|
            0 <= j < record.schedules@.len() && is_eligible(#[trigger] record.schedules@[j], now)),
        close_result(record, close, now, authority) != Err::<TransferOrder, ErrorCode>(
            ErrorCode::AuthorizationMismatch,
        ) ==> (close_result(record, close, now, authority) == Err::<TransferOrder, ErrorCode>(
            ErrorCode::UnlockAmountFirst,
        ) <==> exists|j: int|
            0 <= j < record.schedules@.len() && is_eligible(#[trigger] record.schedules@[j], now)),
{
    lemma_due_positive_iff_eligible(record.schedules@, now);
}

/// An unlock naming a destination other than the record's is refused with
/// `AuthorizationMismatch`, and pays nothing.
pub proof fn lemma_destination_binding(
    record: VestingContract,
    accounts: Unlock,
    now: u64,
    authority: Option<Authority>,
)
    requires
        accounts.dst_token_account != record.dst_token_account,
    ensures
        unlock_result(record, accounts, now, authority) == Err::<TransferOrder, ErrorCode>(
            ErrorCode::AuthorizationMismatch,
        ),
        released_by(unlock_result(record, accounts, now, authority)) == 0,
{
}

/// After the current recipient redirects the record, an unlock pays the new
/// destination, and one that names the old destination is refused; the new
/// destination's owner was never asked.
pub proof fn lemma_redirection(
    before: VestingContract,
    change: ChangeDestination,
    after: VestingContract,
    accounts: Unlock,
    now: u64,
    authority: Option<Authority>,
)
    requires
        change_destination_result(before, change) is Ok,
        after.dst_token_account == change.new_dst_token_account.key,
        after.src_token_account == before.src_token_account,
        after.mint_address == before.mint_address,
        after.schedules@ == before.schedules@,
    ensures
        unlock_result(after, accounts, now, authority) is Ok
            ==> unlock_result(after, accounts, now, authority)->Ok_0.to
            == change.new_dst_token_account.key,
        accounts.dst_token_account == change.new_dst_token_account.key
            && unlock_result(before, Unlock { dst_token_account: before.dst_token_account, ..accounts }, now, authority) is Ok
            ==> unlock_result(after, accounts, now, authority) is Ok,
        accounts.dst_token_account != change.new_dst_token_account.key ==> unlock_result(
            after,
            accounts,
            now,
            authority,
        ) == Err::<TransferOrder, ErrorCode>(ErrorCode::AuthorizationMismatch),
{
}

/// Once an unlock has gone through, a close at the same time is not held
/// back by a due balance; if its accounts are right it returns the rest.
pub proof fn lemma_close_after_unlock(
    before: VestingContract,
    after: VestingContract,
    accounts: Unlock,
    close: CloseAccount,
    now: u64,
    authority: Option<Authority>,
)
    requires
        before.well_formed(),
        unlock_result(before, accounts, now, authority) is Ok,
        unlock_effect(before, after, now, unlock_result(before, accounts, now, authority)),
    ensures
        close_result(after, close, now, authority) != Err::<TransferOrder, ErrorCode>(
            ErrorCode::UnlockAmountFirst,
        ),
        close_result(after, close, now, authority) is Ok ==> close_result(
            after,
            close,
            now,
            authority,
        )->Ok_0.amount == locked_total(before.schedules@, now),
{
    lemma_after_release(before.schedules@, now);
    lemma_total_splits(before.schedules@, now);
}

} // verus!
