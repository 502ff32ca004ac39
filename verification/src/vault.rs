//! The vault itself: the share ledger, the allowance table, the decimal
//! configuration and the event sequence, together with the deposit, mint,
//! withdraw, redeem, transfer and approval entry points.
//!
//! Every entry point is all-or-nothing: when it returns an error the vault
//! is exactly the value it was before the call, and no event is recorded.
//! The well-formedness invariant ties the total supply to the sum of all
//! balances in every reachable state.

use vstd::prelude::*;
use crate::AccountId;
use crate::Balance;
use crate::allowance::Allowances;
use crate::asset::AssetManagerCall;
use crate::asset::RuntimeCall;
use crate::asset::ZeitgeistAsset;
use crate::conversion::lemma_pow10_pos;
use crate::conversion::pow10;
use crate::conversion::pow10_exec;
use crate::events::Approval;
use crate::events::Deposit;
use crate::events::Event;
use crate::events::Transfer;
use crate::events::Withdraw;
use crate::ledger::Balances;
use crate::store::lemma_lookup_le_sum;

verus! {

/// The errors an entry point can report. Any host-level fault outside this
/// taxonomy aborts the enclosing invocation and is not the vault's to
/// interpret.
#[derive(Clone, Copy, Debug, PartialEq, Eq)]
pub enum ErcError {
    /// The debited account holds fewer shares than the request needs.
    InsufficientBalance,
    /// The spender's allowance, or the value handed over alongside a
    /// deposit or mint, falls short of the request.
    InsufficientAllowance,
    /// The deposited amount exceeds the deposit cap.
    ExceededMaxDeposit,
    /// The minted amount exceeds the mint cap.
    ExceededMaxMint,
    /// The withdrawn amount exceeds the withdrawal cap.
    ExceededMaxWithdraw,
    /// The redeemed amount exceeds the redemption cap.
    ExceededMaxRedeem,
    /// The host runtime reported that the outgoing asset transfer failed.
    CallRuntimeFailed,
}

/// The decimal configuration never changes after construction.
pub open spec fn config_unchanged(pre: Erc4626, post: Erc4626) -> bool {
    &&& post.decimals == pre.decimals
    &&& post.decimal_offset == pre.decimal_offset
}

/// No account's balance moved.
pub open spec fn balances_unchanged(pre: Erc4626, post: Erc4626) -> bool {
    forall|a: AccountId| post.spec_balance_of(a) == pre.spec_balance_of(a)
}

/// No pair's allowance moved.
pub open spec fn allowances_unchanged(pre: Erc4626, post: Erc4626) -> bool {
    forall|o: AccountId, s: AccountId| post.spec_allowance(o, s) == pre.spec_allowance(o, s)
}

/// `value` shares moved from `from` to `to` and no other balance moved. A
/// self-transfer leaves every balance where it was.
pub open spec fn balances_shifted(
    pre: Erc4626,
    post: Erc4626,
    from: AccountId,
    to: AccountId,
    value: Balance,
) -> bool {
    if from == to {
        balances_unchanged(pre, post)
    } else {
        &&& post.spec_balance_of(from) == pre.spec_balance_of(from) - value
        &&& post.spec_balance_of(to) == pre.spec_balance_of(to) + value
        &&& forall|a: AccountId|
            a != from && a != to ==> post.spec_balance_of(a) == pre.spec_balance_of(a)
    }
}

/// What a successful share transfer leaves behind: the shifted balances, an
/// unchanged supply and allowance table, and one more transfer record.
pub open spec fn transfer_post(
    pre: Erc4626,
    post: Erc4626,
    from: AccountId,
    to: AccountId,
    value: Balance,
) -> bool {
    &&& post.wf()
    &&& balances_shifted(pre, post, from, to, value)
    &&& post.total_supply == pre.total_supply
    &&& allowances_unchanged(pre, post)
    &&& config_unchanged(pre, post)
    &&& post.events@ == pre.events@.push(Event::Transfer((Transfer {
        from: Some(from),
        to: Some(to),
        value,
    })))
}

/// What a successful deposit or mint leaves behind: `shares` credited to
/// `receiver`, the supply grown by the same amount, and one more deposit
/// record.
pub open spec fn deposit_post(
    pre: Erc4626,
    post: Erc4626,
    caller: AccountId,
    receiver: AccountId,
    assets: Balance,
    shares: Balance,
) -> bool {
    &&& post.wf()
    &&& post.spec_balance_of(receiver) == pre.spec_balance_of(receiver) + shares
    &&& forall|a: AccountId| a != receiver ==> post.spec_balance_of(a) == pre.spec_balance_of(a)
    &&& post.total_supply == pre.total_supply + shares
    &&& allowances_unchanged(pre, post)
    &&& config_unchanged(pre, post)
    &&& post.events@ == pre.events@.push(Event::Deposit((Deposit {
        sender: caller,
        owner: receiver,
        assets,
        shares,
    })))
}

/// What a successful withdrawal or redemption leaves behind: `shares` burned
/// from `owner`, the supply shrunk by the same amount, the allowance spent
/// when the caller acted on the owner's behalf, and one more withdraw
/// record.
pub open spec fn withdraw_post(
    pre: Erc4626,
    post: Erc4626,
    caller: AccountId,
    receiver: AccountId,
    owner: AccountId,
    assets: Balance,
    shares: Balance,
) -> bool {
    &&& post.wf()
    &&& post.spec_balance_of(owner) == pre.spec_balance_of(owner) - shares
    &&& forall|a: AccountId| a != owner ==> post.spec_balance_of(a) == pre.spec_balance_of(a)
    &&& post.total_supply == pre.total_supply - shares
    &&& if caller == owner {
        allowances_unchanged(pre, post)
    } else {
        &&& post.spec_allowance(owner, caller) == pre.spec_allowance(owner, caller) - shares
        &&& forall|o: AccountId, s: AccountId|
            !(o == owner && s == caller) ==> post.spec_allowance(o, s) == pre.spec_allowance(o, s)
    }
    &&& config_unchanged(pre, post)
    &&& post.events@ == pre.events@.push(Event::Withdraw((Withdraw {
        sender: caller,
        receiver,
        owner,
        assets,
        shares,
    })))
}

/// What an approval leaves behind: the pair's allowance overwritten — not
/// accumulated — every other pair and every balance untouched, and one more
/// approval record.
pub open spec fn approve_post(
    pre: Erc4626,
    post: Erc4626,
    owner: AccountId,
    spender: AccountId,
    value: Balance,
) -> bool {
    &&& post.wf()
    &&& post.spec_allowance(owner, spender) == value
    &&& forall|o: AccountId, s: AccountId|
        !(o == owner && s == spender) ==> post.spec_allowance(o, s) == pre.spec_allowance(o, s)
    &&& balances_unchanged(pre, post)
    &&& post.total_supply == pre.total_supply
    &&& config_unchanged(pre, post)
    &&& post.events@ == pre.events@.push(Event::Approval((Approval { owner, spender, value })))
}

/// What a successful delegated transfer leaves behind: the shifted
/// balances, the caller's allowance from `from` consumed by `value`, every
/// other pair untouched, and one more transfer record.
pub open spec fn transfer_from_post(
    pre: Erc4626,
    post: Erc4626,
    from: AccountId,
    to: AccountId,
    value: Balance,
    caller: AccountId,
) -> bool {
    &&& post.wf()
    &&& balances_shifted(pre, post, from, to, value)
    &&& post.total_supply == pre.total_supply
    &&& post.spec_allowance(from, caller) == pre.spec_allowance(from, caller) - value
    &&& forall|o: AccountId, s: AccountId|
        !(o == from && s == caller) ==> post.spec_allowance(o, s) == pre.spec_allowance(o, s)
    &&& config_unchanged(pre, post)
    &&& post.events@ == pre.events@.push(Event::Transfer((Transfer {
        from: Some(from),
        to: Some(to),
        value,
    })))
}

/// The checks a withdrawal or redemption must pass before anything moves:
/// a caller other than the owner needs allowance for the burned shares, and
/// the owner must hold them.
pub open spec fn withdraw_allowed(
    pre: Erc4626,
    caller: AccountId,
    owner: AccountId,
    shares: Balance,
) -> bool {
    &&& caller == owner || pre.spec_allowance(owner, caller) >= shares
    &&& pre.spec_balance_of(owner) >= shares
}

/// A tokenized vault over the chain's native asset.
pub struct Erc4626 {
    /// Total share supply; always the sum of all balances.
    pub total_supply: Balance,
    /// The per-account share balances.
    pub balances: Balances,
    /// The decimal precision of the underlying asset.
    pub decimals: u8,
    /// The fixed exponent scaling assets into shares; immutable after
    /// construction.
    pub decimal_offset: u8,
    /// The per-(owner, spender) approvals.
    pub allowances: Allowances,
    /// The ordered event records of every successful state change.
    pub events: Vec<Event>,
}

impl Erc4626 {
    /// The vault's internal consistency: distinct ledger keys, and a total
    /// supply that equals the sum of all balances.
    pub open spec fn wf(self) -> bool {
        &&& self.balances.wf()
        &&& self.allowances.wf()
        &&& self.total_supply as int == self.balances.total()
    }

    /// The balance of `a`, zero for an account never credited.
    pub open spec fn spec_balance_of(self, a: AccountId) -> Balance {
        self.balances.spec_get(a)
    }

    /// The allowance `owner` has granted `spender`, zero when never set.
    pub open spec fn spec_allowance(self, owner: AccountId, spender: AccountId) -> Balance {
        self.allowances.spec_get(owner, spender)
    }

    /// The shares minted for `assets` under this vault's scaling.
    pub open spec fn spec_shares_of(self, assets: Balance) -> int {
        crate::conversion::shares_of_assets(assets as int, self.decimal_offset as nat)
    }

    /// The assets quoted for `shares` under this vault's scaling.
    pub open spec fn spec_assets_of(self, shares: Balance) -> int {
        crate::conversion::assets_of_shares(shares as int, self.decimal_offset as nat)
    }

    /// The scaling factor `10^offset` fits the balance type, so conversions
    /// can be computed.
    pub open spec fn scaling_fits(self) -> bool {
        pow10(self.decimal_offset as nat) <= u128::MAX
    }

    /// Creates a vault whose whole initial supply is credited to `caller`,
    /// recording the initial mint as a transfer from nowhere.
    pub fn new(total_supply: Balance, decimals: u8, decimal_offset: u8, caller: AccountId) -> (r:
        Erc4626)
        ensures
            r.wf(),
            r.total_supply == total_supply,
            r.spec_balance_of(caller) == total_supply,
            forall|a: AccountId| a != caller ==> r.spec_balance_of(a) == 0,
            forall|o: AccountId, s: AccountId| r.spec_allowance(o, s) == 0,
            r.decimals == decimals,
            r.decimal_offset == decimal_offset,
            r.events@ == seq![Event::Transfer((Transfer {
                from: None,
                to: Some(caller),
                value: total_supply,
            }))],
    {
        let mut balances = Balances::empty();
        balances.set(caller, total_supply);
        let mut events: Vec<Event> = Vec::new();
        events.push(Event::Transfer(Transfer { from: None, to: Some(caller), value: total_supply }));
        proof {
            assert(events@ == seq![Event::Transfer((Transfer {
                from: None,
                to: Some(caller),
                value: total_supply,
            }))]);
        }
        Erc4626 {
            total_supply,
            balances,
            decimals,
            decimal_offset,
            allowances: Allowances::empty(),
            events,
        }
    }

    /// The identity of the underlying asset: the chain's native asset.
    pub fn asset(&self) -> (r: ZeitgeistAsset)
        ensures
            r == ZeitgeistAsset::Ztg,
    {
        ZeitgeistAsset::Ztg
    }

    /// The amount of shares the vault exchanges for `assets`.
    pub fn convert_to_shares(&self, assets: Balance) -> (r: Balance)
        requires
            self.scaling_fits(),
            self.spec_shares_of(assets) <= u128::MAX,
        ensures
            r == self.spec_shares_of(assets),
    {
        let factor = pow10_exec(self.decimal_offset);
        assets * factor
    }

    /// The amount of assets the vault exchanges for `shares`, rounded down.
    pub fn convert_to_assets(&self, shares: Balance) -> (r: Balance)
        requires
            self.scaling_fits(),
        ensures
            r == self.spec_assets_of(shares),
    {
        let factor = pow10_exec(self.decimal_offset);
        proof {
            lemma_pow10_pos(self.decimal_offset as nat);
        }
        shares / factor
    }

    /// The most assets a single deposit call may move; the reference policy
    /// leaves deposits uncapped.
    pub fn max_deposit(&self, _depositor: AccountId) -> (r: Balance)
        ensures
            r == u128::MAX,
    {
        u128::MAX
    }

    /// Quotes the shares a deposit of `assets` would mint.
    pub fn preview_deposit(&self, assets: Balance) -> (r: Balance)
        requires
            self.scaling_fits(),
            self.spec_shares_of(assets) <= u128::MAX,
        ensures
            r == self.spec_shares_of(assets),
    {
        self.convert_to_shares(assets)
    }

    /// The most shares a single mint call may create; the reference policy
    /// leaves mints uncapped.
    pub fn max_mint(&self, _receiver: AccountId) -> (r: Balance)
        ensures
            r == u128::MAX,
    {
        u128::MAX
    }

    /// Quotes the assets a mint of `shares` would require.
    pub fn preview_mint(&self, shares: Balance) -> (r: Balance)
        requires
            self.scaling_fits(),
        ensures
            r == self.spec_assets_of(shares),
    {
        self.convert_to_assets(shares)
    }

    /// The most assets a single withdraw call may move; the reference policy
    /// leaves withdrawals uncapped.
    pub fn max_withdraw(&self, _owner: AccountId) -> (r: Balance)
        ensures
            r == u128::MAX,
    {
        u128::MAX
    }

    /// Quotes the shares a withdrawal of `assets` would burn. Withdrawals
    /// quote in the deposit direction: the full scaled amount is needed, not
    /// a rounded-down figure.
    pub fn preview_withdraw(&self, assets: Balance) -> (r: Balance)
        requires
            self.scaling_fits(),
            self.spec_shares_of(assets) <= u128::MAX,
        ensures
            r == self.spec_shares_of(assets),
    {
        self.convert_to_shares(assets)
    }

    /// The most shares a single redeem call may burn; the reference policy
    /// leaves redemptions uncapped.
    pub fn max_redeem(&self, _owner: AccountId) -> (r: Balance)
        ensures
            r == u128::MAX,
    {
        u128::MAX
    }

    /// Quotes the assets a redemption of `shares` would release, rounded
    /// down.
    pub fn preview_redeem(&self, shares: Balance) -> (r: Balance)
        requires
            self.scaling_fits(),
        ensures
            r == self.spec_assets_of(shares),
    {
        self.convert_to_assets(shares)
    }

    /// The total share supply.
    pub fn total_supply(&self) -> (r: Balance)
        ensures
            r == self.total_supply,
    {
        self.total_supply
    }

    /// The balance of `owner`, zero for an account never credited.
    pub fn balance_of(&self, owner: AccountId) -> (r: Balance)
        requires
            self.wf(),
        ensures
            r == self.spec_balance_of(owner),
    {
        self.balance_of_impl(&owner)
    }

    /// The display precision of a share: the asset's own precision plus the
    /// decimal offset. Carries no accounting weight.
    pub fn decimals(&self) -> (r: u8)
        requires
            self.decimals + self.decimal_offset <= u8::MAX,
        ensures
            r == self.decimals + self.decimal_offset,
    {
        self.decimals + self.decimal_offset
    }

    /// The fixed exponent scaling assets into shares.
    pub fn decimal_offset(&self) -> (r: u8)
        ensures
            r == self.decimal_offset,
    {
        self.decimal_offset
    }

    /// The allowance `owner` has granted `spender`, zero when never set.
    pub fn allowance(&self, owner: AccountId, spender: AccountId) -> (r: Balance)
        requires
            self.wf(),
        ensures
            r == self.spec_allowance(owner, spender),
    {
        self.allowance_impl(&owner, &spender)
    }

    /// The balance of `owner`, read through references.
    fn balance_of_impl(&self, owner: &AccountId) -> (r: Balance)
        requires
            self.wf(),
        ensures
            r == self.spec_balance_of(*owner),
    {
        self.balances.get(*owner)
    }

    /// The allowance of the pair, read through references.
    fn allowance_impl(&self, owner: &AccountId, spender: &AccountId) -> (r: Balance)
        requires
            self.wf(),
        ensures
            r == self.spec_allowance(*owner, *spender),
    {
        self.allowances.get(*owner, *spender)
    }

    /// The runtime call that moves `assets` units of the vault's underlying
    /// asset out of custody toward `receiver`; the host dispatches it.
    pub fn asset_transfer_instruction(&self, receiver: AccountId, assets: Balance) -> (r:
        RuntimeCall)
        ensures
            r == RuntimeCall::AssetManager(AssetManagerCall::Transfer {
                dest: receiver,
                currency_id: ZeitgeistAsset::Ztg,
                amount: assets,
            }),
    {
        RuntimeCall::AssetManager(AssetManagerCall::Transfer {
            dest: receiver,
            currency_id: ZeitgeistAsset::Ztg,
            amount: assets,
        })
    }

    /// Credits `receiver` with `shares` freshly minted against `assets` put
    /// into custody, and records the deposit.
    fn real_deposit(
        &mut self,
        caller: AccountId,
        receiver: AccountId,
        assets: Balance,
        shares: Balance,
    ) -> (r: Result<(), ErcError>)
        requires
            old(self).wf(),
            old(self).total_supply + shares <= u128::MAX,
        ensures
            final(self).wf(),
            r is Ok,
            deposit_post(*old(self), *final(self), caller, receiver, assets, shares),
    {
        let cur = self.balances.get(receiver);
        proof {
            lemma_lookup_le_sum(self.balances.entries@, receiver);
        }
        self.balances.set(receiver, cur + shares);
        self.total_supply = self.total_supply + shares;
        self.events.push(Event::Deposit(Deposit { sender: caller, owner: receiver, assets, shares }));
        Ok(())
    }

    /// Spends the caller's allowance when acting for another owner, burns
    /// `shares` from `owner`, and records the withdrawal — but only once the
    /// host has reported the outgoing asset transfer successful; on any
    /// failure the vault is left untouched.
    fn real_withdraw(
        &mut self,
        caller: AccountId,
        receiver: AccountId,
        owner: AccountId,
        assets: Balance,
        shares: Balance,
        transfer_ok: bool,
    ) -> (r: Result<(), ErcError>)
        requires
            old(self).wf(),
        ensures
            final(self).wf(),
            r == Err::<(), ErcError>(ErcError::InsufficientAllowance) <==> (caller != owner
                && old(self).spec_allowance(owner, caller) < shares),
            r == Err::<(), ErcError>(ErcError::InsufficientBalance) <==> ((caller == owner || old(
            self).spec_allowance(owner, caller) >= shares) && old(self).spec_balance_of(owner)
                < shares),
            r == Err::<(), ErcError>(ErcError::CallRuntimeFailed) <==> (withdraw_allowed(
                *old(self),
                caller,
                owner,
                shares,
            ) && !transfer_ok),
            r is Ok <==> (withdraw_allowed(*old(self), caller, owner, shares) && transfer_ok),
            r is Err ==> *final(self) == *old(self),
            r is Ok ==> withdraw_post(
                *old(self),
                *final(self),
                caller,
                receiver,
                owner,
                assets,
                shares,
            ),
    {
        let allowance = self.allowance_impl(&owner, &caller);
        if caller != owner {
            if allowance < shares {
                return Err(ErcError::InsufficientAllowance);
            }
        }
        let cur = self.balances.get(owner);
        if cur < shares {
            return Err(ErcError::InsufficientBalance);
        }
        if !transfer_ok {
            return Err(ErcError::CallRuntimeFailed);
        }
        proof {
            lemma_lookup_le_sum(self.balances.entries@, owner);
        }
        if caller != owner {
            self.allowances.set(owner, caller, allowance - shares);
        }
        self.balances.set(owner, cur - shares);
        self.total_supply = self.total_supply - shares;
        self.events.push(
            Event::Withdraw(Withdraw { sender: caller, receiver, owner, assets, shares }),
        );
        Ok(())
    }

    /// Takes `assets` units the caller put into custody alongside the call
    /// and mints the scaled amount of shares to `receiver`. `transferred` is
    /// the value the host reports as handed over with the call; a mismatch
    /// is rejected before anything moves.
    pub fn deposit(
        &mut self,
        assets: Balance,
        receiver: AccountId,
        caller: AccountId,
        transferred: Balance,
    ) -> (r: Result<(), ErcError>)
        requires
            old(self).wf(),
            old(self).scaling_fits(),
            transferred == assets ==> old(self).spec_shares_of(assets) <= u128::MAX && old(
            self).total_supply + old(self).spec_shares_of(assets) <= u128::MAX,
        ensures
            final(self).wf(),
            r == Err::<(), ErcError>(ErcError::InsufficientAllowance) <==> transferred != assets,
            r is Ok <==> transferred == assets,
            r is Err ==> *final(self) == *old(self),
            r is Ok ==> deposit_post(
                *old(self),
                *final(self),
                caller,
                receiver,
                assets,
                old(self).spec_shares_of(assets) as u128,
            ),
    {
        if assets > self.max_deposit(caller) {
            return Err(ErcError::ExceededMaxDeposit);
        }
        if assets != transferred {
            return Err(ErcError::InsufficientAllowance);
        }
        let shares = self.preview_deposit(assets);
        self.real_deposit(caller, receiver, assets, shares)
    }

    /// Mints exactly `shares` to `receiver` against the quoted amount of
    /// assets put into custody alongside the call. `transferred` is the
    /// value the host reports as handed over; it must equal the quote.
    pub fn mint(
        &mut self,
        shares: Balance,
        receiver: AccountId,
        caller: AccountId,
        transferred: Balance,
    ) -> (r: Result<(), ErcError>)
        requires
            old(self).wf(),
            old(self).scaling_fits(),
            transferred == old(self).spec_assets_of(shares) ==> old(self).total_supply + shares
                <= u128::MAX,
        ensures
            final(self).wf(),
            r == Err::<(), ErcError>(ErcError::InsufficientAllowance) <==> transferred != old(
            self).spec_assets_of(shares),
            r is Ok <==> transferred == old(self).spec_assets_of(shares),
            r is Err ==> *final(self) == *old(self),
            r is Ok ==> deposit_post(
                *old(self),
                *final(self),
                caller,
                receiver,
                old(self).spec_assets_of(shares) as u128,
                shares,
            ),
    {
        if shares > self.max_mint(receiver) {
            return Err(ErcError::ExceededMaxMint);
        }
        let assets = self.preview_mint(shares);
        if assets != transferred {
            return Err(ErcError::InsufficientAllowance);
        }
        self.real_deposit(caller, receiver, assets, shares)
    }

    /// Burns the scaled share amount from `owner` and releases exactly
    /// `assets` from custody toward `receiver`. `transfer_ok` is the outcome
    /// the host runtime reports for that outgoing transfer; on failure the
    /// vault is left untouched. Withdrawals are sized against the deposit
    /// cap; with every cap unbounded the check never fires.
    pub fn withdraw(
        &mut self,
        assets: Balance,
        receiver: AccountId,
        owner: AccountId,
        caller: AccountId,
        transfer_ok: bool,
    ) -> (r: Result<(), ErcError>)
        requires
            old(self).wf(),
            old(self).scaling_fits(),
            old(self).spec_shares_of(assets) <= u128::MAX,
        ensures
            final(self).wf(),
            r == Err::<(), ErcError>(ErcError::InsufficientAllowance) <==> (caller != owner && old(
            self).spec_allowance(owner, caller) < old(self).spec_shares_of(assets)),
            r == Err::<(), ErcError>(ErcError::InsufficientBalance) <==> ((caller == owner || old(
            self).spec_allowance(owner, caller) >= old(self).spec_shares_of(assets)) && old(
            self).spec_balance_of(owner) < old(self).spec_shares_of(assets)),
            r == Err::<(), ErcError>(ErcError::CallRuntimeFailed) <==> (withdraw_allowed(
                *old(self),
                caller,
                owner,
                old(self).spec_shares_of(assets) as u128,
            ) && !transfer_ok),
            r is Ok <==> (withdraw_allowed(
                *old(self),
                caller,
                owner,
                old(self).spec_shares_of(assets) as u128,
            ) && transfer_ok),
            r is Err ==> *final(self) == *old(self),
            r is Ok ==> withdraw_post(
                *old(self),
                *final(self),
                caller,
                receiver,
                owner,
                assets,
                old(self).spec_shares_of(assets) as u128,
            ),
    {
        if assets > self.max_deposit(owner) {
            return Err(ErcError::ExceededMaxWithdraw);
        }
        let shares = self.preview_withdraw(assets);
        self.real_withdraw(caller, receiver, owner, assets, shares, transfer_ok)
    }

    /// Burns exactly `shares` from `owner` and releases the rounded-down
    /// asset quote from custody toward `receiver`. `transfer_ok` is the
    /// outcome the host runtime reports for that outgoing transfer. A
    /// redemption over the cap reuses the withdrawal error; with every cap
    /// unbounded the check never fires.
    pub fn redeem(
        &mut self,
        shares: Balance,
        receiver: AccountId,
        owner: AccountId,
        caller: AccountId,
        transfer_ok: bool,
    ) -> (r: Result<(), ErcError>)
        requires
            old(self).wf(),
            old(self).scaling_fits(),
        ensures
            final(self).wf(),
            r == Err::<(), ErcError>(ErcError::InsufficientAllowance) <==> (caller != owner && old(
            self).spec_allowance(owner, caller) < shares),
            r == Err::<(), ErcError>(ErcError::InsufficientBalance) <==> ((caller == owner || old(
            self).spec_allowance(owner, caller) >= shares) && old(self).spec_balance_of(owner)
                < shares),
            r == Err::<(), ErcError>(ErcError::CallRuntimeFailed) <==> (withdraw_allowed(
                *old(self),
                caller,
                owner,
                shares,
            ) && !transfer_ok),
            r is Ok <==> (withdraw_allowed(*old(self), caller, owner, shares) && transfer_ok),
            r is Err ==> *final(self) == *old(self),
            r is Ok ==> withdraw_post(
                *old(self),
                *final(self),
                caller,
                receiver,
                owner,
                old(self).spec_assets_of(shares) as u128,
                shares,
            ),
    {
        if shares > self.max_redeem(owner) {
            return Err(ErcError::ExceededMaxWithdraw);
        }
        let assets = self.preview_redeem(shares);
        proof {
            lemma_pow10_pos(self.decimal_offset as nat);
        }
        self.real_withdraw(caller, receiver, owner, assets, shares, transfer_ok)
    }

    /// Moves `value` shares from the caller to `to`; a transfer to oneself,
    /// or of zero, succeeds and is recorded like any other.
    pub fn transfer(&mut self, to: AccountId, value: Balance, caller: AccountId) -> (r: Result<
        (),
        ErcError,
    >)
        requires
            old(self).wf(),
        ensures
            final(self).wf(),
            r == Err::<(), ErcError>(ErcError::InsufficientBalance) <==> old(self).spec_balance_of(
                caller,
            ) < value,
            r is Ok <==> old(self).spec_balance_of(caller) >= value,
            r is Err ==> *final(self) == *old(self),
            r is Ok ==> transfer_post(*old(self), *final(self), caller, to, value),
    {
        let from = caller;
        self.transfer_from_to(&from, &to, value)
    }

    /// Grants `spender` the right to move up to `value` shares from the
    /// caller's account, overwriting any earlier approval.
    pub fn approve(&mut self, spender: AccountId, value: Balance, caller: AccountId) -> (r: Result<
        (),
        ErcError,
    >)
        requires
            old(self).wf(),
        ensures
            final(self).wf(),
            r is Ok,
            approve_post(*old(self), *final(self), caller, spender, value),
    {
        self.allowances.set(caller, spender, value);
        self.events.push(Event::Approval(Approval { owner: caller, spender, value }));
        Ok(())
    }

    /// Moves `value` shares from `from` to `to` on the caller's allowance,
    /// consuming that much of it; the allowance is spent only once the
    /// balance move has succeeded, so a failed transfer leaves it untouched.
    pub fn transfer_from(
        &mut self,
        from: AccountId,
        to: AccountId,
        value: Balance,
        caller: AccountId,
    ) -> (r: Result<(), ErcError>)
        requires
            old(self).wf(),
        ensures
            final(self).wf(),
            r == Err::<(), ErcError>(ErcError::InsufficientAllowance) <==> old(
                self,
            ).spec_allowance(from, caller) < value,
            r == Err::<(), ErcError>(ErcError::InsufficientBalance) <==> (old(self).spec_allowance(
                from,
                caller,
            ) >= value && old(self).spec_balance_of(from) < value),
            r is Ok <==> (old(self).spec_allowance(from, caller) >= value && old(
            self).spec_balance_of(from) >= value),
            r is Err ==> *final(self) == *old(self),
            r is Ok ==> transfer_from_post(*old(self), *final(self), from, to, value, caller),
    {
        let allowance = self.allowance_impl(&from, &caller);
        if allowance < value {
            return Err(ErcError::InsufficientAllowance);
        }
        let moved = self.transfer_from_to(&from, &to, value);
        match moved {
            Ok(_) => {},
            Err(e) => {
                return Err(e);
            },
        }
        self.allowances.set(from, caller, allowance - value);
        Ok(())
    }

    /// Moves `value` shares from `from` to `to` when `from` holds them, and
    /// records the transfer.
    fn transfer_from_to(&mut self, from: &AccountId, to: &AccountId, value: Balance) -> (r: Result<
        (),
        ErcError,
    >)
        requires
            old(self).wf(),
        ensures
            final(self).wf(),
            r == Err::<(), ErcError>(ErcError::InsufficientBalance) <==> old(self).spec_balance_of(
                *from,
            ) < value,
            r is Ok <==> old(self).spec_balance_of(*from) >= value,
            r is Err ==> *final(self) == *old(self),
            r is Ok ==> transfer_post(*old(self), *final(self), *from, *to, value),
    {
        let from_balance = self.balance_of_impl(from);
        if from_balance < value {
            return Err(ErcError::InsufficientBalance);
        }
        self.balances.set(*from, from_balance - value);
        let to_balance = self.balances.get(*to);
        proof {
            lemma_lookup_le_sum(self.balances.entries@, *to);
        }
        self.balances.set(*to, to_balance + value);
        self.events.push(
            Event::Transfer(Transfer { from: Some(*from), to: Some(*to), value }),
        );
        Ok(())
    }
}

/// Approval is an overwrite, not an accumulation: approving the same pair
/// with the same value twice leaves every observable allowance and balance
/// exactly as the first approval left them.
pub proof fn lemma_approve_idempotent(
    s0: Erc4626,
    s1: Erc4626,
    s2: Erc4626,
    owner: AccountId,
    spender: AccountId,
    value: Balance,
)
    requires
        approve_post(s0, s1, owner, spender, value),
        approve_post(s1, s2, owner, spender, value),
    ensures
        s1.spec_allowance(owner, spender) == value,
        s2.spec_allowance(owner, spender) == value,
        forall|o: AccountId, s: AccountId| s2.spec_allowance(o, s) == s1.spec_allowance(o, s),
        forall|a: AccountId| s2.spec_balance_of(a) == s1.spec_balance_of(a),
        s2.total_supply == s1.total_supply,
{
    assert forall|o: AccountId, s: AccountId| s2.spec_allowance(o, s) == s1.spec_allowance(
        o,
        s,
    ) by {
        if o == owner && s == spender {
        } else {
        }
    }
}

} // verus!
