use anchor_lang::prelude::Pubkey;
use vesting_program::account::{AccountKey, Authority, TokenAccountRef, TransferOrder};
use vesting_program::error::ErrorCode;
use vesting_program::instructions::{
    change_destination, close_account, create, settle_close, settle_unlock, unlock,
    ChangeDestination, CloseAccount, Create, Unlock,
};
use vesting_program::record::VestingContract;
use vesting_program::schedule::{release_due, tally, Schedule};

fn key(n: u8) -> AccountKey {
    AccountKey { bytes: [n; 32] }
}

const INITIALIZER: u8 = 1;
const RECORD: u8 = 2;
const ESCROW: u8 = 3;
const SRC: u8 = 4;
const DST: u8 = 5;
const MINT: u8 = 6;
const RECIPIENT: u8 = 7;
const NEW_DST: u8 = 8;
const NEW_RECIPIENT: u8 = 9;
const OTHER: u8 = 10;

fn create_accounts() -> Create {
    Create {
        initializer: key(INITIALIZER),
        vesting_token_account: key(ESCROW),
        src_token_account: TokenAccountRef { key: key(SRC), mint: key(MINT), owner: key(INITIALIZER) },
        dst_token_account: TokenAccountRef { key: key(DST), mint: key(MINT), owner: key(RECIPIENT) },
        mint_address: key(MINT),
    }
}

fn record_with(schedules: Vec<Schedule>) -> VestingContract {
    VestingContract {
        dst_token_account: key(DST),
        src_token_account: key(SRC),
        mint_address: key(MINT),
        schedules,
    }
}

fn sched(release_time: u64, amount: u64) -> Schedule {
    Schedule { release_time, amount }
}

fn unlock_accounts(dst: u8) -> Unlock {
    Unlock {
        vesting_contract: key(RECORD),
        vesting_token_account: TokenAccountRef { key: key(ESCROW), mint: key(MINT), owner: key(RECORD) },
        dst_token_account: key(dst),
    }
}

fn close_accounts() -> CloseAccount {
    CloseAccount {
        initializer: key(INITIALIZER),
        vesting_contract: key(RECORD),
        vesting_token_account: key(ESCROW),
        src_token_account: TokenAccountRef { key: key(SRC), mint: key(MINT), owner: key(INITIALIZER) },
    }
}

fn authority() -> Option<Authority> {
    Some(Authority { key: key(RECORD), bump: 254 })
}

fn amounts(r: &VestingContract) -> Vec<u64> {
    r.schedules.iter().map(|s| s.amount).collect()
}

fn assert_order(o: &TransferOrder, from: u8, to: u8, auth: u8, amount: u64, bump: Option<u8>) {
    assert_eq!(o.from, key(from));
    assert_eq!(o.to, key(to));
    assert_eq!(o.authority, key(auth));
    assert_eq!(o.amount, amount);
    assert_eq!(o.signer_bump, bump);
}

#[test]
fn create_builds_schedules_and_deposit() {
    let (rec, order) = create(&create_accounts(), vec![10, 20], vec![5, 7]).unwrap();
    assert_eq!(rec.schedules, vec![sched(10, 5), sched(20, 7)]);
    assert_eq!(rec.dst_token_account, key(DST));
    assert_eq!(rec.src_token_account, key(SRC));
    assert_eq!(rec.mint_address, key(MINT));
    assert_order(&order, SRC, ESCROW, INITIALIZER, 12, None);
}

#[test]
fn create_with_no_schedules_deposits_nothing() {
    let (rec, order) = create(&create_accounts(), vec![], vec![]).unwrap();
    assert!(rec.schedules.is_empty());
    assert_eq!(order.amount, 0);
}

#[test]
fn create_rejects_unequal_lengths() {
    let r = create(&create_accounts(), vec![10, 20], vec![5]);
    assert_eq!(r.unwrap_err(), ErrorCode::InvalidIntervalInput);
}

#[test]
fn create_rejects_source_not_owned_by_signer() {
    let mut a = create_accounts();
    a.src_token_account.owner = key(OTHER);
    assert_eq!(create(&a, vec![10], vec![5]).unwrap_err(), ErrorCode::AuthorizationMismatch);
}

#[test]
fn create_rejects_destination_of_another_asset() {
    let mut a = create_accounts();
    a.dst_token_account.mint = key(OTHER);
    assert_eq!(create(&a, vec![10], vec![5]).unwrap_err(), ErrorCode::AuthorizationMismatch);
}

#[test]
fn create_accepts_largest_total() {
    let (_, order) = create(&create_accounts(), vec![1, 2], vec![u64::MAX - 1, 1]).unwrap();
    assert_eq!(order.amount, u64::MAX);
}

#[test]
fn unlock_releases_due_schedules() {
    let mut rec = record_with(vec![sched(10, 5), sched(20, 7), sched(30, 11)]);
    let order = settle_unlock(&mut rec, &unlock_accounts(DST), 25, authority()).unwrap();
    assert_order(&order, ESCROW, DST, RECORD, 12, Some(254));
    assert_eq!(rec.schedules, vec![sched(10, 0), sched(20, 0), sched(30, 11)]);
}

#[test]
fn second_unlock_at_same_time_is_refused() {
    let mut rec = record_with(vec![sched(10, 5), sched(20, 7)]);
    settle_unlock(&mut rec, &unlock_accounts(DST), 15, authority()).unwrap();
    let r = settle_unlock(&mut rec, &unlock_accounts(DST), 15, authority());
    assert_eq!(r.unwrap_err(), ErrorCode::ZeroUnlockAmount);
    assert_eq!(amounts(&rec), vec![0, 7]);
}

#[test]
fn release_time_equal_to_now_is_not_eligible() {
    let mut rec = record_with(vec![sched(10, 5)]);
    let r = settle_unlock(&mut rec, &unlock_accounts(DST), 10, authority());
    assert_eq!(r.unwrap_err(), ErrorCode::ZeroUnlockAmount);
    assert_eq!(amounts(&rec), vec![5]);
    let order = settle_unlock(&mut rec, &unlock_accounts(DST), 11, authority()).unwrap();
    assert_eq!(order.amount, 5);
}

#[test]
fn unlock_to_other_destination_is_refused() {
    let mut rec = record_with(vec![sched(10, 5)]);
    let r = settle_unlock(&mut rec, &unlock_accounts(OTHER), 100, authority());
    assert_eq!(r.unwrap_err(), ErrorCode::AuthorizationMismatch);
    assert_eq!(amounts(&rec), vec![5]);
}

#[test]
fn unlock_without_matching_authority_is_refused() {
    let mut rec = record_with(vec![sched(10, 5)]);
    let r = settle_unlock(&mut rec, &unlock_accounts(DST), 100, None);
    assert_eq!(r.unwrap_err(), ErrorCode::AuthorizationMismatch);
    let other = Some(Authority { key: key(OTHER), bump: 255 });
    let r = settle_unlock(&mut rec, &unlock_accounts(DST), 100, other);
    assert_eq!(r.unwrap_err(), ErrorCode::AuthorizationMismatch);
    assert_eq!(amounts(&rec), vec![5]);
}

#[test]
fn unlock_from_escrow_of_another_asset_is_refused() {
    let mut rec = record_with(vec![sched(10, 5)]);
    let mut a = unlock_accounts(DST);
    a.vesting_token_account.mint = key(OTHER);
    assert_eq!(settle_unlock(&mut rec, &a, 100, authority()).unwrap_err(), ErrorCode::AuthorizationMismatch);
}

#[test]
fn redirected_record_pays_new_destination() {
    let mut rec = record_with(vec![sched(10, 5), sched(50, 9)]);
    let change = ChangeDestination {
        current_dst_token_account_owner: key(RECIPIENT),
        current_dst_token_account: TokenAccountRef { key: key(DST), mint: key(MINT), owner: key(RECIPIENT) },
        new_dst_token_account: TokenAccountRef { key: key(NEW_DST), mint: key(MINT), owner: key(NEW_RECIPIENT) },
    };
    change_destination(&mut rec, &change).unwrap();
    assert_eq!(rec.dst_token_account, key(NEW_DST));
    let old = settle_unlock(&mut rec, &unlock_accounts(DST), 20, authority());
    assert_eq!(old.unwrap_err(), ErrorCode::AuthorizationMismatch);
    let order = settle_unlock(&mut rec, &unlock_accounts(NEW_DST), 20, authority()).unwrap();
    assert_order(&order, ESCROW, NEW_DST, RECORD, 5, Some(254));
}

#[test]
fn change_destination_needs_current_owner_signature() {
    let mut rec = record_with(vec![sched(10, 5)]);
    let change = ChangeDestination {
        current_dst_token_account_owner: key(OTHER),
        current_dst_token_account: TokenAccountRef { key: key(DST), mint: key(MINT), owner: key(RECIPIENT) },
        new_dst_token_account: TokenAccountRef { key: key(NEW_DST), mint: key(MINT), owner: key(OTHER) },
    };
    assert_eq!(change_destination(&mut rec, &change).unwrap_err(), ErrorCode::AuthorizationMismatch);
    assert_eq!(rec.dst_token_account, key(DST));
}

#[test]
fn change_destination_rejects_other_asset_or_stale_destination() {
    let mut rec = record_with(vec![sched(10, 5)]);
    let wrong_mint = ChangeDestination {
        current_dst_token_account_owner: key(RECIPIENT),
        current_dst_token_account: TokenAccountRef { key: key(DST), mint: key(MINT), owner: key(RECIPIENT) },
        new_dst_token_account: TokenAccountRef { key: key(NEW_DST), mint: key(OTHER), owner: key(NEW_RECIPIENT) },
    };
    assert_eq!(change_destination(&mut rec, &wrong_mint).unwrap_err(), ErrorCode::AuthorizationMismatch);
    let stale = ChangeDestination {
        current_dst_token_account_owner: key(RECIPIENT),
        current_dst_token_account: TokenAccountRef { key: key(OTHER), mint: key(MINT), owner: key(RECIPIENT) },
        new_dst_token_account: TokenAccountRef { key: key(NEW_DST), mint: key(MINT), owner: key(NEW_RECIPIENT) },
    };
    assert_eq!(change_destination(&mut rec, &stale).unwrap_err(), ErrorCode::AuthorizationMismatch);
    assert_eq!(rec.dst_token_account, key(DST));
}

#[test]
fn close_waits_for_unlock_then_returns_rest() {
    let mut rec = record_with(vec![sched(5, 100), sched(1000, 50)]);
    let r = settle_close(&rec, &close_accounts(), 10, authority());
    assert_eq!(r.unwrap_err(), ErrorCode::UnlockAmountFirst);
    let paid = settle_unlock(&mut rec, &unlock_accounts(DST), 10, authority()).unwrap();
    assert_eq!(paid.amount, 100);
    let order = settle_close(&rec, &close_accounts(), 10, authority()).unwrap();
    assert_order(&order, ESCROW, SRC, RECORD, 50, Some(254));
}

#[test]
fn close_with_wrong_depositor_is_refused() {
    let rec = record_with(vec![sched(1000, 50)]);
    let mut a = close_accounts();
    a.src_token_account.owner = key(OTHER);
    assert_eq!(settle_close(&rec, &a, 10, authority()).unwrap_err(), ErrorCode::AuthorizationMismatch);
    let mut b = close_accounts();
    b.src_token_account.key = key(OTHER);
    assert_eq!(settle_close(&rec, &b, 10, authority()).unwrap_err(), ErrorCode::AuthorizationMismatch);
}

#[test]
fn close_after_everything_released_returns_zero() {
    let rec = record_with(vec![sched(5, 0), sched(6, 0)]);
    let order = settle_close(&rec, &close_accounts(), 10, authority()).unwrap();
    assert_eq!(order.amount, 0);
}

#[test]
fn released_plus_remaining_equals_deposit() {
    let (mut rec, deposit) = create(&create_accounts(), vec![10, 20, 30, 40], vec![3, 5, 7, 11]).unwrap();
    let mut released: u64 = 0;
    for now in [5u64, 15, 15, 35, 36] {
        if let Ok(o) = settle_unlock(&mut rec, &unlock_accounts(DST), now, authority()) {
            released += o.amount;
        }
        let held: u64 = rec.schedules.iter().map(|s| s.amount).sum();
        assert_eq!(released + held, deposit.amount);
    }
    assert_eq!(released, 15);
    let back = settle_close(&rec, &close_accounts(), 36, authority()).unwrap();
    assert_eq!(released + back.amount, deposit.amount);
}

#[test]
fn release_due_and_tally_split_amounts() {
    let mut s = vec![sched(1, 2), sched(9, 3), sched(10, 4)];
    assert_eq!(tally(&s, 9), (2, 7));
    assert_eq!(release_due(&mut s, 10), 5);
    assert_eq!(s, vec![sched(1, 0), sched(9, 0), sched(10, 4)]);
}

#[test]
fn unlock_derives_authority_from_seed() {
    let program = Pubkey::new_from_array([42; 32]);
    let seed = "employee-7";
    let (pda, bump) = Pubkey::find_program_address(&[seed.as_bytes()], &program);
    let mut accounts = unlock_accounts(DST);
    accounts.vesting_contract = AccountKey { bytes: pda.to_bytes() };
    accounts.vesting_token_account.owner = accounts.vesting_contract;
    let mut rec = record_with(vec![sched(10, 5)]);
    let program_key = AccountKey { bytes: program.to_bytes() };
    let order = unlock(&mut rec, &accounts, seed.as_bytes(), &program_key, 20).unwrap();
    assert_eq!(order.signer_bump, Some(bump));
    assert_eq!(order.authority, AccountKey { bytes: pda.to_bytes() });
    assert_eq!(amounts(&rec), vec![0]);
    let wrong = unlock(&mut rec, &accounts, b"another-seed", &program_key, 20);
    assert_eq!(wrong.unwrap_err(), ErrorCode::AuthorizationMismatch);
}

#[test]
fn close_derives_authority_from_seed() {
    let program = Pubkey::new_from_array([43; 32]);
    let seed = "vault";
    let (pda, bump) = Pubkey::find_program_address(&[seed.as_bytes()], &program);
    let mut accounts = close_accounts();
    accounts.vesting_contract = AccountKey { bytes: pda.to_bytes() };
    let rec = record_with(vec![sched(1000, 50)]);
    let program_key = AccountKey { bytes: program.to_bytes() };
    let order = close_account(&rec, &accounts, seed.as_bytes(), &program_key, 20).unwrap();
    assert_eq!(order.signer_bump, Some(bump));
    assert_eq!(order.amount, 50);
}

#[test]
fn seed_longer_than_limit_is_refused() {
    let program = AccountKey { bytes: [44; 32] };
    let seed = [b'x'; 33];
    let mut rec = record_with(vec![sched(10, 5)]);
    let r = unlock(&mut rec, &unlock_accounts(DST), &seed, &program, 20);
    assert_eq!(r.unwrap_err(), ErrorCode::AuthorizationMismatch);
    let c = close_account(&rec, &close_accounts(), &seed, &program, 20);
    assert_eq!(c.unwrap_err(), ErrorCode::AuthorizationMismatch);
}

#[test]
fn stored_sizes() {
    assert_eq!(VestingContract::LEN(), 108);
    assert_eq!(Schedule::LEN(), 16);
    assert_eq!(VestingContract::LEN() + Schedule::LEN() * 3, 156);
}

#[test]
fn error_messages() {
    assert_eq!(ErrorCode::ZeroUnlockAmount.message(), "No outstanding unlockable balance.");
    assert!(ErrorCode::InvalidIntervalInput.message().contains("same length"));
    assert!(ErrorCode::UnlockAmountFirst.message().contains("unlock balance first"));
}
