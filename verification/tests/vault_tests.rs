// The vault's unit tests: construction, reads, conversions, transfers and
// allowances, driven with explicit caller identities in place of a host
// dispatch environment.

use erc_4626_zeit::events::Event;
use erc_4626_zeit::events::Transfer;
use erc_4626_zeit::vault::Erc4626;
use erc_4626_zeit::vault::ErcError;

const ALICE: u128 = 1;
const BOB: u128 = 2;
const EVE: u128 = 5;

#[test]
fn new_works() {
    let erc20 = Erc4626::new(100, 10, 1, ALICE);

    // The initial mint is recorded as a transfer from nowhere.
    assert_eq!(1, erc20.events.len());
    assert_eq!(
        erc20.events[0],
        Event::Transfer(Transfer { from: None, to: Some(ALICE), value: 100 })
    );
}

#[test]
fn total_supply_works() {
    let erc20 = Erc4626::new(100, 10, 1, ALICE);
    assert_eq!(
        erc20.events[0],
        Event::Transfer(Transfer { from: None, to: Some(ALICE), value: 100 })
    );
    assert_eq!(erc20.total_supply(), 100);
}

#[test]
fn decimals_works() {
    let erc20 = Erc4626::new(100, 10, 1, ALICE);
    assert_eq!(
        erc20.events[0],
        Event::Transfer(Transfer { from: None, to: Some(ALICE), value: 100 })
    );
    // A share displays with the asset's precision plus the decimal offset.
    assert_eq!(erc20.decimals(), 11);
    assert_eq!(erc20.decimal_offset(), 1);
}

#[test]
fn balance_of_works() {
    let erc20 = Erc4626::new(100, 10, 1, ALICE);
    assert_eq!(
        erc20.events[0],
        Event::Transfer(Transfer { from: None, to: Some(ALICE), value: 100 })
    );
    // The deploying caller owns the whole initial supply.
    assert_eq!(erc20.balance_of(ALICE), 100);
    // Other accounts own nothing.
    assert_eq!(erc20.balance_of(BOB), 0);
}

#[test]
fn convert_to_shares_works() {
    let erc20 = Erc4626::new(100, 10, 1, ALICE);
    // One asset unit buys 10^offset shares.
    assert_eq!(erc20.convert_to_shares(100), 1000);
}

#[test]
fn convert_to_assets_works() {
    let erc20 = Erc4626::new(100, 10, 1, ALICE);
    // 10^offset shares redeem one asset unit; the division rounds down.
    assert_eq!(erc20.convert_to_assets(100), 10);
}

#[test]
fn transfer_works() {
    let mut erc20 = Erc4626::new(100, 10, 1, ALICE);

    assert_eq!(erc20.balance_of(BOB), 0);
    assert_eq!(erc20.transfer(BOB, 10, ALICE), Ok(()));
    assert_eq!(erc20.balance_of(BOB), 10);

    // The initial mint and this transfer are the only records.
    assert_eq!(erc20.events.len(), 2);
    assert_eq!(
        erc20.events[0],
        Event::Transfer(Transfer { from: None, to: Some(ALICE), value: 100 })
    );
    assert_eq!(
        erc20.events[1],
        Event::Transfer(Transfer { from: Some(ALICE), to: Some(BOB), value: 10 })
    );
}

#[test]
fn invalid_transfer_should_fail() {
    let mut erc20 = Erc4626::new(100, 10, 1, ALICE);

    assert_eq!(erc20.balance_of(BOB), 0);

    // Bob holds nothing, so his transfer fails.
    assert_eq!(erc20.transfer(EVE, 10, BOB), Err(ErcError::InsufficientBalance));
    // No balance moved.
    assert_eq!(erc20.balance_of(ALICE), 100);
    assert_eq!(erc20.balance_of(BOB), 0);
    assert_eq!(erc20.balance_of(EVE), 0);

    // Only the construction record exists.
    assert_eq!(erc20.events.len(), 1);
    assert_eq!(
        erc20.events[0],
        Event::Transfer(Transfer { from: None, to: Some(ALICE), value: 100 })
    );
}

#[test]
fn transfer_from_works() {
    let mut erc20 = Erc4626::new(100, 10, 1, ALICE);

    // Bob may not move Alice's shares before an approval.
    assert_eq!(
        erc20.transfer_from(ALICE, EVE, 10, BOB),
        Err(ErcError::InsufficientAllowance)
    );
    // Alice approves Bob for transfers on her behalf.
    assert_eq!(erc20.approve(BOB, 10, ALICE), Ok(()));

    // The approval was recorded.
    assert_eq!(erc20.events.len(), 2);

    // Bob moves Alice's shares to Eve.
    assert_eq!(erc20.transfer_from(ALICE, EVE, 10, BOB), Ok(()));
    assert_eq!(erc20.balance_of(EVE), 10);

    assert_eq!(erc20.events.len(), 3);
    assert_eq!(
        erc20.events[0],
        Event::Transfer(Transfer { from: None, to: Some(ALICE), value: 100 })
    );
    // events[1] is the approval record.
    assert_eq!(
        erc20.events[2],
        Event::Transfer(Transfer { from: Some(ALICE), to: Some(EVE), value: 10 })
    );
}

#[test]
fn allowance_must_not_change_on_failed_transfer() {
    let mut erc20 = Erc4626::new(100, 10, 1, ALICE);

    // Alice approves Bob for more than she holds.
    let alice_balance = erc20.balance_of(ALICE);
    let initial_allowance = alice_balance + 2;
    assert_eq!(erc20.approve(BOB, initial_allowance, ALICE), Ok(()));

    // Bob tries to move more than Alice holds.
    let events_before = erc20.events.len();
    assert_eq!(
        erc20.transfer_from(ALICE, EVE, alice_balance + 1, BOB),
        Err(ErcError::InsufficientBalance)
    );
    // The allowance stayed where it was.
    assert_eq!(erc20.allowance(ALICE, BOB), initial_allowance);
    // No record was appended.
    assert_eq!(events_before, erc20.events.len());
}
