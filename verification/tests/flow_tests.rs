// End-to-end flows over the vault: deposits, mints, withdrawals and
// redemptions with the host-supplied values made explicit, and the
// bookkeeping properties checked on concrete runs.

use erc_4626_zeit::asset::AssetManagerCall;
use erc_4626_zeit::asset::RuntimeCall;
use erc_4626_zeit::asset::ZeitgeistAsset;
use erc_4626_zeit::events::Deposit;
use erc_4626_zeit::events::Event;
use erc_4626_zeit::events::Transfer;
use erc_4626_zeit::events::Withdraw;
use erc_4626_zeit::vault::Erc4626;
use erc_4626_zeit::vault::ErcError;

const ALICE: u128 = 1;
const BOB: u128 = 2;
const CHARLIE: u128 = 3;
const EVE: u128 = 5;

fn sum_of_balances(v: &Erc4626, accounts: &[u128]) -> u128 {
    let mut sum: u128 = 0;
    for a in accounts {
        sum += v.balance_of(*a);
    }
    sum
}

#[test]
fn e2e_transfer() {
    let total_supply: u128 = 1_000_000_000;
    let erc20 = &mut Erc4626::new(total_supply, 10, 1, ALICE);

    assert_eq!(total_supply, erc20.total_supply(), "total_supply");

    let transfer_to_bob: u128 = 500_000_000;
    erc20.transfer(BOB, transfer_to_bob, ALICE).expect("transfer failed");

    assert_eq!(transfer_to_bob, erc20.balance_of(BOB), "balance_of");
}

#[test]
fn e2e_allowances() {
    let total_supply: u128 = 1_000_000_000;
    let erc20 = &mut Erc4626::new(total_supply, 10, 1, BOB);

    // An unapproved delegated transfer fails.
    let amount: u128 = 500_000_000;
    assert!(
        erc20.transfer_from(BOB, CHARLIE, amount, CHARLIE).is_err(),
        "unapproved transfer_from should fail"
    );

    // Bob approves Charlie up to a small amount.
    let approved_value: u128 = 1_000;
    erc20.approve(CHARLIE, approved_value, BOB).expect("approve failed");

    // Charlie moves exactly the approved amount.
    assert!(
        erc20.transfer_from(BOB, CHARLIE, approved_value, CHARLIE).is_ok(),
        "approved transfer_from should succeed"
    );

    // One more unit exceeds what is left of the allowance.
    assert!(
        erc20.transfer_from(BOB, CHARLIE, 1, CHARLIE).is_err(),
        "transfer_from exceeding the approved amount should fail"
    );

    assert_eq!(total_supply - approved_value, erc20.balance_of(BOB), "balance_of");
}

#[test]
fn deposit_works() {
    let mut v = Erc4626::new(100, 10, 1, ALICE);
    assert_eq!(v.preview_deposit(7), 70);
    assert_eq!(v.deposit(7, BOB, ALICE, 7), Ok(()));
    assert_eq!(v.balance_of(BOB), 70);
    assert_eq!(v.total_supply(), 170);
    assert_eq!(
        *v.events.last().unwrap(),
        Event::Deposit(Deposit { sender: ALICE, owner: BOB, assets: 7, shares: 70 })
    );
}

#[test]
fn deposit_with_mismatched_value_fails() {
    let mut v = Erc4626::new(100, 10, 1, ALICE);
    // The caller handed over 6 units but asked to deposit 7: rejected, and
    // no share is credited.
    assert_eq!(v.deposit(7, BOB, ALICE, 6), Err(ErcError::InsufficientAllowance));
    assert_eq!(v.balance_of(BOB), 0);
    assert_eq!(v.total_supply(), 100);
    assert_eq!(v.events.len(), 1);
}

#[test]
fn mint_works() {
    let mut v = Erc4626::new(100, 10, 1, ALICE);
    // 25 shares quote to 2 asset units, rounded down.
    assert_eq!(v.preview_mint(25), 2);
    assert_eq!(v.mint(25, CHARLIE, ALICE, 2), Ok(()));
    // Exactly the requested shares are credited, not a recomputed amount.
    assert_eq!(v.balance_of(CHARLIE), 25);
    assert_eq!(v.total_supply(), 125);
    assert_eq!(
        *v.events.last().unwrap(),
        Event::Deposit(Deposit { sender: ALICE, owner: CHARLIE, assets: 2, shares: 25 })
    );
}

#[test]
fn mint_with_mismatched_value_fails() {
    let mut v = Erc4626::new(100, 10, 1, ALICE);
    assert_eq!(v.mint(25, CHARLIE, ALICE, 3), Err(ErcError::InsufficientAllowance));
    assert_eq!(v.balance_of(CHARLIE), 0);
    assert_eq!(v.total_supply(), 100);
}

#[test]
fn withdraw_works() {
    let mut v = Erc4626::new(100, 10, 1, ALICE);
    // Withdrawing 5 asset units burns the full scaled 50 shares.
    assert_eq!(v.preview_withdraw(5), 50);
    assert_eq!(v.withdraw(5, EVE, ALICE, ALICE, true), Ok(()));
    assert_eq!(v.balance_of(ALICE), 50);
    assert_eq!(v.total_supply(), 50);
    assert_eq!(
        *v.events.last().unwrap(),
        Event::Withdraw(Withdraw { sender: ALICE, receiver: EVE, owner: ALICE, assets: 5, shares: 50 })
    );
}

#[test]
fn withdraw_fails_when_runtime_transfer_fails() {
    let mut v = Erc4626::new(100, 10, 1, ALICE);
    // The host reports the outgoing asset transfer failed: nothing moves.
    assert_eq!(v.withdraw(5, EVE, ALICE, ALICE, false), Err(ErcError::CallRuntimeFailed));
    assert_eq!(v.balance_of(ALICE), 100);
    assert_eq!(v.total_supply(), 100);
    assert_eq!(v.events.len(), 1);
}

#[test]
fn withdraw_by_spender_spends_allowance() {
    let mut v = Erc4626::new(100, 10, 1, ALICE);
    assert_eq!(v.approve(BOB, 60, ALICE), Ok(()));
    // Bob withdraws 5 asset units of Alice's: 50 shares burned and spent
    // from his allowance.
    assert_eq!(v.withdraw(5, BOB, ALICE, BOB, true), Ok(()));
    assert_eq!(v.balance_of(ALICE), 50);
    assert_eq!(v.allowance(ALICE, BOB), 10);
}

#[test]
fn withdraw_without_allowance_fails() {
    let mut v = Erc4626::new(100, 10, 1, ALICE);
    assert_eq!(v.withdraw(5, BOB, ALICE, BOB, true), Err(ErcError::InsufficientAllowance));
    assert_eq!(v.balance_of(ALICE), 100);
    assert_eq!(v.total_supply(), 100);
}

#[test]
fn withdraw_beyond_balance_fails() {
    let mut v = Erc4626::new(100, 10, 1, ALICE);
    // 11 asset units need 110 shares; Alice holds 100.
    assert_eq!(v.withdraw(11, EVE, ALICE, ALICE, true), Err(ErcError::InsufficientBalance));
    assert_eq!(v.balance_of(ALICE), 100);
    assert_eq!(v.total_supply(), 100);
}

#[test]
fn redeem_works() {
    let mut v = Erc4626::new(100, 10, 1, ALICE);
    // 55 shares release 5 asset units, the remainder is forfeited.
    assert_eq!(v.preview_redeem(55), 5);
    assert_eq!(v.redeem(55, EVE, ALICE, ALICE, true), Ok(()));
    assert_eq!(v.balance_of(ALICE), 45);
    assert_eq!(v.total_supply(), 45);
    assert_eq!(
        *v.events.last().unwrap(),
        Event::Withdraw(Withdraw { sender: ALICE, receiver: EVE, owner: ALICE, assets: 5, shares: 55 })
    );
}

#[test]
fn redeem_fails_when_runtime_transfer_fails() {
    let mut v = Erc4626::new(100, 10, 1, ALICE);
    assert_eq!(v.redeem(50, EVE, ALICE, ALICE, false), Err(ErcError::CallRuntimeFailed));
    assert_eq!(v.balance_of(ALICE), 100);
    assert_eq!(v.events.len(), 1);
}

#[test]
fn transfer_from_with_exhausted_allowance_fails() {
    let mut v = Erc4626::new(100, 10, 1, ALICE);
    assert_eq!(v.approve(BOB, 10, ALICE), Ok(()));
    assert_eq!(v.transfer_from(ALICE, EVE, 10, BOB), Ok(()));
    assert_eq!(v.balance_of(EVE), 10);
    assert_eq!(v.allowance(ALICE, BOB), 0);
    // The allowance is spent; one more unit is refused and the table stays
    // as it was.
    assert_eq!(v.transfer_from(ALICE, EVE, 1, BOB), Err(ErcError::InsufficientAllowance));
    assert_eq!(v.allowance(ALICE, BOB), 0);
}

#[test]
fn approve_overwrites_instead_of_accumulating() {
    let mut v = Erc4626::new(100, 10, 1, ALICE);
    assert_eq!(v.approve(BOB, 10, ALICE), Ok(()));
    assert_eq!(v.allowance(ALICE, BOB), 10);
    // Approving the same value again leaves the same allowance.
    assert_eq!(v.approve(BOB, 10, ALICE), Ok(()));
    assert_eq!(v.allowance(ALICE, BOB), 10);
    // A different value replaces, not adds.
    assert_eq!(v.approve(BOB, 7, ALICE), Ok(()));
    assert_eq!(v.allowance(ALICE, BOB), 7);
}

#[test]
fn total_supply_equals_sum_of_balances() {
    let accounts = [ALICE, BOB, CHARLIE, EVE];
    let mut v = Erc4626::new(100, 10, 1, ALICE);
    assert_eq!(sum_of_balances(&v, &accounts), v.total_supply());

    v.transfer(BOB, 30, ALICE).unwrap();
    assert_eq!(sum_of_balances(&v, &accounts), v.total_supply());

    v.deposit(4, CHARLIE, ALICE, 4).unwrap();
    assert_eq!(sum_of_balances(&v, &accounts), v.total_supply());

    v.mint(13, EVE, BOB, 1).unwrap();
    assert_eq!(sum_of_balances(&v, &accounts), v.total_supply());

    v.withdraw(3, EVE, ALICE, ALICE, true).unwrap();
    assert_eq!(sum_of_balances(&v, &accounts), v.total_supply());

    v.redeem(13, BOB, EVE, EVE, true).unwrap();
    assert_eq!(sum_of_balances(&v, &accounts), v.total_supply());
}

#[test]
fn asset_to_share_round_trip_is_exact() {
    let v = Erc4626::new(100, 10, 1, ALICE);
    for x in [0u128, 1, 7, 99, 1_000_000_000] {
        assert_eq!(v.convert_to_assets(v.convert_to_shares(x)), x);
    }
}

#[test]
fn share_to_asset_round_trip_may_round_down() {
    let v = Erc4626::new(100, 10, 1, ALICE);
    for y in [0u128, 1, 9, 10, 25, 99, 100, 101] {
        assert!(v.convert_to_shares(v.convert_to_assets(y)) <= y);
    }
    // The loss is real: 25 shares quote to 2 assets, which scale back to
    // only 20 shares.
    assert_eq!(v.convert_to_shares(v.convert_to_assets(25)), 20);
}

#[test]
fn self_transfer_of_zero_succeeds_and_is_recorded() {
    let mut v = Erc4626::new(100, 10, 1, ALICE);
    assert_eq!(v.transfer(ALICE, 0, ALICE), Ok(()));
    assert_eq!(v.balance_of(ALICE), 100);
    assert_eq!(v.events.len(), 2);
    assert_eq!(
        v.events[1],
        Event::Transfer(Transfer { from: Some(ALICE), to: Some(ALICE), value: 0 })
    );
}

#[test]
fn caps_are_unbounded() {
    let v = Erc4626::new(100, 10, 1, ALICE);
    assert_eq!(v.max_deposit(ALICE), u128::MAX);
    assert_eq!(v.max_mint(ALICE), u128::MAX);
    assert_eq!(v.max_withdraw(ALICE), u128::MAX);
    assert_eq!(v.max_redeem(ALICE), u128::MAX);
}

#[test]
fn asset_and_transfer_instruction() {
    let v = Erc4626::new(100, 10, 1, ALICE);
    assert_eq!(v.asset(), ZeitgeistAsset::Ztg);
    assert_eq!(
        v.asset_transfer_instruction(EVE, 42),
        RuntimeCall::AssetManager(AssetManagerCall::Transfer {
            dest: EVE,
            currency_id: ZeitgeistAsset::Ztg,
            amount: 42,
        })
    );
}
