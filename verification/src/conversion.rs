//! The conversion engine: pure arithmetic between asset amounts and share
//! amounts, scaled by a fixed power-of-ten decimal offset.
//!
//! Shares are assets scaled up by `10^offset`; assets are shares scaled down
//! by the same factor with truncating division. Going asset -> share -> asset
//! is lossless; going share -> asset -> share may lose the low-order
//! remainder. That asymmetry is intentional and both directions are stated
//! and proved below.

use vstd::prelude::*;
use vstd::arithmetic::div_mod::lemma_div_by_multiple;
use vstd::arithmetic::div_mod::lemma_remainder;

verus! {

/// `10` raised to the `n`th power.
pub open spec fn pow10(n: nat) -> nat
    decreases n,
{
    if n == 0 {
        1
    } else {
        10 * pow10((n - 1) as nat)
    }
}

/// The number of shares the vault exchanges for `assets` units of the
/// underlying asset: the amount scaled up by `10^offset`.
pub open spec fn shares_of_assets(assets: int, offset: nat) -> int {
    assets * pow10(offset)
}

/// The number of asset units the vault exchanges for `shares` vault shares:
/// the amount scaled down by `10^offset`, truncating toward zero.
pub open spec fn assets_of_shares(shares: int, offset: nat) -> int {
    shares / pow10(offset) as int
}

/// A power of ten is positive.
pub proof fn lemma_pow10_pos(n: nat)
    ensures
        pow10(n) >= 1,
    decreases n,
{
    if n > 0 {
        lemma_pow10_pos((n - 1) as nat);
    }
}

/// Powers of ten grow with the exponent.
pub proof fn lemma_pow10_mono(m: nat, n: nat)
    requires
        m <= n,
    ensures
        pow10(m) <= pow10(n),
    decreases n,
{
    if m < n {
        lemma_pow10_mono(m, (n - 1) as nat);
        lemma_pow10_pos((n - 1) as nat);
    }
}

/// Scaling an asset amount up into shares and back down returns the original
/// amount: the scaled value is an exact multiple of the factor, so the
/// truncating division loses nothing.
pub proof fn lemma_asset_share_round_trip(assets: int, offset: nat)
    requires
        assets >= 0,
    ensures
        assets_of_shares(shares_of_assets(assets, offset), offset) == assets,
{
    lemma_pow10_pos(offset);
    lemma_div_by_multiple(assets, pow10(offset) as int);
}

/// Scaling a share amount down into assets and back up never exceeds the
/// original amount: the truncating division may drop a remainder below
/// `10^offset`, and that loss is never recovered.
pub proof fn lemma_share_asset_round_trip_lossy(shares: int, offset: nat)
    requires
        shares >= 0,
    ensures
        shares_of_assets(assets_of_shares(shares, offset), offset) <= shares,
{
    lemma_pow10_pos(offset);
    lemma_remainder(shares, pow10(offset) as int);
}

/// Computes `10^n` for exponents whose power fits in a `u128`.
pub fn pow10_exec(n: u8) -> (r: u128)
    requires
        pow10(n as nat) <= u128::MAX,
    ensures
        r as nat == pow10(n as nat),
{
    let mut r: u128 = 1;
    let mut i: u8 = 0;
    while i < n
        invariant
            i <= n,
            r as nat == pow10(i as nat),
            pow10(n as nat) <= u128::MAX,
        decreases n - i,
    {
        proof {
            lemma_pow10_mono((i + 1) as nat, n as nat);
            assert(pow10((i + 1) as nat) == 10 * pow10(i as nat));
        }
        r = r * 10;
        i = i + 1;
    }
    r
}

} // verus!
