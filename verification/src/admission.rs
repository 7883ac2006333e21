//! The admission controller: the launch and sell cooldowns, the per-block
//! velocity window and the per-swap cap.

use vstd::prelude::*;
use crate::error::{failure, SafePumpError};

verus! {

/// Seconds after launch before the first swap is taken.
pub const ANTI_SNIPER_COOLDOWN: i64 = 120;

/// Seconds a user waits after a swap before selling.
pub const SWAP_COOLDOWN: i64 = 86_400;

/// Whether the launch cooldown turns a swap down: only the very first swap
/// is held back, and only while fewer than 120 seconds have passed.
pub open spec fn anti_snipe_blocks(swap_count: u64, launch_timestamp: i64, now: i64) -> bool {
    swap_count == 0 && now - launch_timestamp < ANTI_SNIPER_COOLDOWN
}

/// The launch gate: the first swap against a fresh asset must come no
/// earlier than the cooldown after launch.
pub fn check_anti_snipe(swap_count: u64, launch_timestamp: i64, now: i64) -> (r: Result<
    (),
    SafePumpError,
>)
    ensures
        r is Err <==> anti_snipe_blocks(swap_count, launch_timestamp, now),
        r is Err ==> failure(r) == Some(SafePumpError::AntiSnipeCooldown),
{
    if swap_count == 0 && (now as i128) - (launch_timestamp as i128) < (ANTI_SNIPER_COOLDOWN as i128) {
        Err(SafePumpError::AntiSnipeCooldown)
    } else {
        Ok(())
    }
}

/// Whether the sell cooldown turns a swap down: buys never wait; a sell
/// waits until a full cooldown has passed since the user's last swap.
pub open spec fn sell_cooldown_blocks(last_swap_timestamp: i64, now: i64, is_buy: bool) -> bool {
    !is_buy && now - last_swap_timestamp < SWAP_COOLDOWN
}

/// The sell gate.
pub fn check_sell_cooldown(last_swap_timestamp: i64, now: i64, is_buy: bool) -> (r: Result<
    (),
    SafePumpError,
>)
    ensures
        r is Err <==> sell_cooldown_blocks(last_swap_timestamp, now, is_buy),
        r is Err ==> failure(r) == Some(SafePumpError::CooldownNotElapsed),
{
    if !is_buy && (now as i128) - (last_swap_timestamp as i128) < (SWAP_COOLDOWN as i128) {
        Err(SafePumpError::CooldownNotElapsed)
    } else {
        Ok(())
    }
}

/// What was bought in one block.
#[derive(Clone, Copy, Debug)]
pub struct VelocityWindow {
    pub total_bought_sol: u64,
    pub block_slot: u64,
    pub bump: u8,
}

impl VelocityWindow {
    /// An empty window for a block.
    pub fn new(block_slot: u64, bump: u8) -> (w: VelocityWindow)
        ensures
            w == (VelocityWindow { total_bought_sol: 0, block_slot, bump }),
    {
        VelocityWindow { total_bought_sol: 0, block_slot, bump }
    }

    /// The window as it stands in block `slot`: kept where it is that
    /// block's, emptied and moved where it belongs to another.
    pub open spec fn rolled(self, slot: u64) -> VelocityWindow {
        if self.block_slot != slot {
            VelocityWindow { total_bought_sol: 0, block_slot: slot, ..self }
        } else {
            self
        }
    }

    /// The window after a swap of `amount` was let through in block `slot`.
    pub open spec fn after_swap(self, slot: u64, amount: u64, is_buy: bool) -> VelocityWindow {
        let w = self.rolled(slot);
        if is_buy {
            VelocityWindow { total_bought_sol: (w.total_bought_sol + amount) as u64, ..w }
        } else {
            w
        }
    }

    /// Why the window turns down a swap of `amount` in block `slot` under
    /// the aggregate cap `cap`, if it does. Sells are never counted.
    pub open spec fn velocity_failure(self, slot: u64, amount: u64, is_buy: bool, cap: u64) -> Option<
        SafePumpError,
    > {
        let w = self.rolled(slot);
        if !is_buy {
            None
        } else if w.total_bought_sol + amount > u64::MAX {
            Some(SafePumpError::Overflow)
        } else if w.total_bought_sol + amount > cap {
            Some(SafePumpError::VelocityExceeded)
        } else {
            None
        }
    }

    /// Moves the window to block `slot`, emptying it if it was another
    /// block's.
    pub fn roll(&mut self, slot: u64)
        ensures
            *final(self) == old(self).rolled(slot),
    {
        if self.block_slot != slot {
            self.block_slot = slot;
            self.total_bought_sol = 0;
        }
    }

    /// Counts a swap against the block's aggregate cap. The window is first
    /// moved to the current block; a buy is then added to what the block has
    /// bought and refused where the sum passes the cap. A refused swap
    /// leaves the window as it was.
    pub fn record(&mut self, slot: u64, amount: u64, is_buy: bool, cap: u64) -> (r: Result<
        (),
        SafePumpError,
    >)
        ensures
            failure(r) == old(self).velocity_failure(slot, amount, is_buy, cap),
            r is Ok ==> *final(self) == old(self).after_swap(slot, amount, is_buy),
            r is Err ==> *final(self) == *old(self),
            r is Ok && is_buy && old(self).block_slot != slot ==> final(self).total_bought_sol
                == amount,
            r is Ok && is_buy ==> final(self).total_bought_sol <= cap,
    {
        let carried: u64 = if self.block_slot != slot {
            0
        } else {
            self.total_bought_sol
        };
        let mut total: u64 = carried;
        if is_buy {
            match carried.checked_add(amount) {
                None => {
                    return Err(SafePumpError::Overflow);
                },
                Some(sum) => {
                    if sum > cap {
                        return Err(SafePumpError::VelocityExceeded);
                    }
                    total = sum;
                },
            }
        }
        self.block_slot = slot;
        self.total_bought_sol = total;
        Ok(())
    }
}

/// The lesser of two rates.
pub open spec fn lesser_bps(a: u64, b: u64) -> u64 {
    if a <= b {
        a
    } else {
        b
    }
}

/// The most that one swap may trade: the lesser of the tier's rate and the
/// asset's own rate, in basis points of `base`, rounded down. For a buy the
/// base is the total supply, for a sell the seller's balance.
pub open spec fn swap_cap_of(base: u64, tier_bps: u64, configured_bps: u64) -> int {
    (base as int * lesser_bps(tier_bps, configured_bps) as int) / 10_000
}

/// Computes the per-swap cap.
pub fn swap_cap(base: u64, tier_bps: u64, configured_bps: u64) -> (cap: u128)
    ensures
        cap == swap_cap_of(base, tier_bps, configured_bps),
{
    let bps: u64 = if tier_bps <= configured_bps {
        tier_bps
    } else {
        configured_bps
    };
    crate::tax::mul_div(base, bps, crate::tax::BPS_DENOMINATOR)
}

/// The limits that a tier sets.
#[derive(Clone, Copy, Debug)]
pub struct Tier {
    /// Most that one block may buy, in smallest units.
    pub velocity_cap: u64,
    /// Most that one swap may trade, in basis points.
    pub swap_bps_cap: u64,
}

/// Why admission fails, if it does: first the block's aggregate cap, then
/// the per-swap cap.
pub open spec fn admit_failure(
    window: VelocityWindow,
    slot: u64,
    tier: Tier,
    configured_bps_cap: u64,
    cap_base: u64,
    amount: u64,
    is_buy: bool,
) -> Option<SafePumpError> {
    if window.velocity_failure(slot, amount, is_buy, tier.velocity_cap) is Some {
        window.velocity_failure(slot, amount, is_buy, tier.velocity_cap)
    } else if amount > swap_cap_of(cap_base, tier.swap_bps_cap, configured_bps_cap) {
        if is_buy {
            Some(SafePumpError::BuyCapExceeded)
        } else {
            Some(SafePumpError::SellCapExceeded)
        }
    } else {
        None
    }
}

/// Admits or refuses a swap. The window is moved to block `slot` (emptied
/// if it was another block's); a buy is added to the block's total and
/// refused with `VelocityExceeded` where the total passes the tier's
/// aggregate cap; the amount is then held against the per-swap cap, the
/// lesser of the tier's and the asset's rate applied to `cap_base`: the
/// total supply for a buy, the seller's balance for a sell. A refused swap
/// leaves the window as it was.
pub fn admit_swap(
    window: &mut VelocityWindow,
    slot: u64,
    tier: &Tier,
    configured_bps_cap: u64,
    cap_base: u64,
    amount: u64,
    is_buy: bool,
) -> (r: Result<(), SafePumpError>)
    ensures
        failure(r) == admit_failure(
            *old(window),
            slot,
            *tier,
            configured_bps_cap,
            cap_base,
            amount,
            is_buy,
        ),
        r is Ok ==> *final(window) == old(window).after_swap(slot, amount, is_buy),
        r is Err ==> *final(window) == *old(window),
        r is Ok && is_buy && old(window).block_slot != slot ==> final(window).total_bought_sol
            == amount,
{
    let cap: u128 = swap_cap(cap_base, tier.swap_bps_cap, configured_bps_cap);
    let mut next: VelocityWindow = *window;
    match next.record(slot, amount, is_buy, tier.velocity_cap) {
        Err(e) => {
            return Err(e);
        },
        Ok(()) => {},
    }
    if amount as u128 > cap {
        if is_buy {
            return Err(SafePumpError::BuyCapExceeded);
        } else {
            return Err(SafePumpError::SellCapExceeded);
        }
    }
    *window = next;
    Ok(())
}

} // verus!
