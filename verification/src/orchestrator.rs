//! The swap orchestrator: a request passes the gates, is taxed by the
//! coordinator, is handed to the exchange leg net of tax, and is committed;
//! or it is rejected and nothing changes.

use vstd::prelude::*;
use crate::address::Address;
use crate::admission::{
    anti_snipe_blocks, check_anti_snipe, check_sell_cooldown, sell_cooldown_blocks,
};
use crate::contract::TokenContract;
use crate::coordinator::{
    check_tax_gates, check_tax_swap, global_tax_swap, global_tax_swap_checked, is_tax_result,
    tax_swap_applied, tax_swap_failure, verify_signed_fields, GlobalTaxSwap, TaxRequest,
    TaxResult,
};
use crate::error::{failure, SafePumpError};
use crate::signature::{message_bytes, signature_accepted};
use crate::tax::{total_tax_of, GLOBAL_TAX_BPS};

verus! {

/// What the coordinator remembers of one user's swaps of one asset.
#[derive(Clone, Copy, Debug)]
pub struct UserSwapState {
    pub last_swap_timestamp: i64,
    pub last_cpi_timestamp: i64,
    pub cpi_count: u64,
    pub bump: u8,
    /// The address of the user's registered nonce vault.
    pub vault: Address,
}

/// The records that one swap of a bonded asset reads and writes.
#[derive(Debug)]
pub struct ChildSwap {
    pub mint: Address,
    pub contract: TokenContract,
    pub user_state: UserSwapState,
    /// The coordinator's records for the requester.
    pub tax: GlobalTaxSwap,
}

/// What the exchange leg is asked to do.
#[derive(Clone, Copy, Debug)]
pub struct ExchangeOrder {
    /// The amount to trade: the requested amount less the whole tax.
    pub source_amount: u64,
    pub minimum_out: u64,
    pub is_buy: bool,
}

/// What the exchange leg answered.
#[derive(Clone, Copy, Debug)]
pub enum ExchangeOutcome {
    /// The order was carried out; so much was received.
    Filled { received: u64 },
    /// The order was turned down.
    Rejected,
}

/// The phases of a swap. A request moves from one to the next in this order
/// and can be rejected at each gate on the way.
#[derive(Clone, Copy, Debug, PartialEq, Eq, Structural)]
pub enum SwapPhase {
    Pending,
    Authenticated,
    Admitted,
    Taxed,
    Executed,
    Committed,
    Rejected,
}

/// What a committed swap leaves behind for the caller: the coordinator's
/// answer, the order that was carried out and what it brought.
#[derive(Debug)]
pub struct SwapReceipt {
    pub tax: TaxResult,
    pub order: ExchangeOrder,
    pub received: u64,
}

/// The order that a request gives rise to: the amount net of the whole tax,
/// the requested minimum and the direction.
pub open spec fn order_of(request: TaxRequest) -> ExchangeOrder {
    ExchangeOrder {
        source_amount: (request.amount_in - total_tax_of(request.amount_in, GLOBAL_TAX_BPS)) as u64,
        minimum_out: request.min_out,
        is_buy: request.is_buy,
    }
}

/// Which of the orchestrator's own gates turns the request down, if any, in
/// the order in which they are passed: the mint's suffix; the asset is set
/// up; the launch cooldown; the sell cooldown; the vault is the user's
/// registered one; the nonce is current; the signature holds.
pub open spec fn swap_gate_failure(
    ctx: ChildSwap,
    request: TaxRequest,
    mint_ok: bool,
    signature_ok: bool,
    now: i64,
) -> Option<SafePumpError> {
    if !mint_ok {
        Some(SafePumpError::InvalidMintSuffix)
    } else if !ctx.contract.is_initialized {
        Some(SafePumpError::NotInitialized)
    } else if anti_snipe_blocks(ctx.contract.swap_count, ctx.contract.bond_timestamp, now) {
        Some(SafePumpError::AntiSnipeCooldown)
    } else if sell_cooldown_blocks(ctx.user_state.last_swap_timestamp, now, request.is_buy) {
        Some(SafePumpError::CooldownNotElapsed)
    } else if ctx.tax.vault_address != ctx.user_state.vault {
        Some(SafePumpError::VaultNotRegistered)
    } else if ctx.tax.vault.nonce != request.nonce {
        Some(SafePumpError::ReplayRejected)
    } else if !signature_ok {
        Some(SafePumpError::InvalidSignature)
    } else {
        None
    }
}

/// Why no order is issued for a request, if none is: one of the
/// orchestrator's gates, or the coordinator's tax routine.
pub open spec fn quote_failure(
    ctx: ChildSwap,
    request: TaxRequest,
    mint_ok: bool,
    signature_ok: bool,
    now: i64,
    slot: u64,
) -> Option<SafePumpError> {
    if swap_gate_failure(ctx, request, mint_ok, signature_ok, now) is Some {
        swap_gate_failure(ctx, request, mint_ok, signature_ok, now)
    } else {
        tax_swap_failure(ctx.tax, request, signature_ok, now, slot)
    }
}

/// Why a swap fails, if it does: for the reasons for which no order is
/// issued, or because the exchange leg turned the order down.
pub open spec fn swap_failure(
    ctx: ChildSwap,
    request: TaxRequest,
    mint_ok: bool,
    signature_ok: bool,
    now: i64,
    slot: u64,
    exchange: ExchangeOutcome,
) -> Option<SafePumpError> {
    if quote_failure(ctx, request, mint_ok, signature_ok, now, slot) is Some {
        quote_failure(ctx, request, mint_ok, signature_ok, now, slot)
    } else if exchange is Rejected {
        Some(SafePumpError::ExchangeRejected)
    } else {
        None
    }
}

/// The phase at which a swap ends: `Committed` where it succeeds; where it
/// is rejected, the last phase that it had reached.
pub open spec fn last_phase(
    ctx: ChildSwap,
    request: TaxRequest,
    mint_ok: bool,
    signature_ok: bool,
    now: i64,
    slot: u64,
    exchange: ExchangeOutcome,
) -> SwapPhase {
    if swap_gate_failure(ctx, request, mint_ok, signature_ok, now) is Some {
        SwapPhase::Pending
    } else if crate::coordinator::gate_failure(ctx.tax, request, signature_ok, now) is Some {
        SwapPhase::Pending
    } else if tax_swap_failure(ctx.tax, request, signature_ok, now, slot) is Some {
        if ctx.tax.velocity.velocity_failure(
            slot,
            request.amount_in,
            request.is_buy,
            crate::tier::velocity_cap_of(ctx.tax.global_state.total_swapped) as u64,
        ) is Some {
            SwapPhase::Authenticated
        } else {
            SwapPhase::Admitted
        }
    } else if exchange is Rejected {
        SwapPhase::Taxed
    } else {
        SwapPhase::Committed
    }
}

/// Whether `after` is what a committed swap at time `now` leaves of
/// `before`: the coordinator's records as its tax routine leaves them, the
/// time of the user's last swap set to `now`, the rest as it was.
pub open spec fn swap_committed(
    before: ChildSwap,
    after: ChildSwap,
    request: TaxRequest,
    now: i64,
    slot: u64,
) -> bool {
    &&& after.mint == before.mint
    &&& after.contract == before.contract
    &&& after.user_state == (UserSwapState { last_swap_timestamp: now, ..before.user_state })
    &&& tax_swap_applied(before.tax, after.tax, request, slot)
}

/// A swap that went through does not go through a second time: after a
/// committed swap the same request fails, at whatever time, in whatever
/// block, whatever the tests of the mint's suffix and of the signature say
/// and whatever the exchange leg answers.
pub proof fn lemma_swap_not_replayable(
    before: ChildSwap,
    after: ChildSwap,
    request: TaxRequest,
    mint_ok: bool,
    signature_ok: bool,
    now: i64,
    slot: u64,
    exchange: ExchangeOutcome,
    mint_ok_again: bool,
    signature_ok_again: bool,
    later: i64,
    later_slot: u64,
    exchange_again: ExchangeOutcome,
)
    requires
        swap_failure(before, request, mint_ok, signature_ok, now, slot, exchange) is None,
        swap_committed(before, after, request, now, slot),
    ensures
        after.tax.vault.nonce == before.tax.vault.nonce + 1,
        swap_failure(
            after,
            request,
            mint_ok_again,
            signature_ok_again,
            later,
            later_slot,
            exchange_again,
        ) is Some,
{
    assert(quote_failure(before, request, mint_ok, signature_ok, now, slot) is None);
    assert(swap_gate_failure(before, request, mint_ok, signature_ok, now) is None);
    assert(tax_swap_failure(before.tax, request, signature_ok, now, slot) is None);
    crate::coordinator::lemma_replay_rejected(
        before.tax,
        after.tax,
        request,
        signature_ok,
        now,
        slot,
        signature_ok_again,
        later,
        later_slot,
    );
    assert(swap_gate_failure(after, request, mint_ok_again, signature_ok_again, later) is Some);
}

/// Tells at which phase a swap ends: `Committed` where it would succeed;
/// where it would be rejected, the last phase that it reaches. Nothing is
/// changed.
pub fn swap_phase(
    ctx: &ChildSwap,
    request: &TaxRequest,
    mint_ok: bool,
    signature_ok: bool,
    now: i64,
    slot: u64,
    exchange: ExchangeOutcome,
) -> (phase: SwapPhase)
    requires
        ctx.tax.wf(),
    ensures
        phase == last_phase(*ctx, *request, mint_ok, signature_ok, now, slot, exchange),
        phase == SwapPhase::Committed <==> swap_failure(
            *ctx,
            *request,
            mint_ok,
            signature_ok,
            now,
            slot,
            exchange,
        ) is None,
{
    if check_swap_gates(ctx, request, mint_ok, signature_ok, now).is_err() {
        return SwapPhase::Pending;
    }
    if check_tax_gates(&ctx.tax, request, signature_ok, now).is_err() {
        return SwapPhase::Pending;
    }
    let cap: u64 = crate::tier::velocity_cap(ctx.tax.global_state.total_swapped);
    let mut window = ctx.tax.velocity;
    if window.record(slot, request.amount_in, request.is_buy, cap).is_err() {
        return SwapPhase::Authenticated;
    }
    if check_tax_swap(&ctx.tax, request, signature_ok, now, slot).is_err() {
        return SwapPhase::Admitted;
    }
    match exchange {
        ExchangeOutcome::Rejected => SwapPhase::Taxed,
        ExchangeOutcome::Filled { .. } => SwapPhase::Committed,
    }
}

/// Whether `receipt` is what a committed swap hands back: the order that
/// was carried out, for the amount that the tax leaves; what it brought;
/// and the coordinator's answer, with the split of the tax, the payments
/// due at once and the notice.
pub open spec fn is_receipt_of(
    receipt: SwapReceipt,
    ctx: ChildSwap,
    request: TaxRequest,
    exchange: ExchangeOutcome,
) -> bool {
    &&& receipt.order == order_of(request)
    &&& exchange == (ExchangeOutcome::Filled { received: receipt.received })
    &&& is_tax_result(receipt.tax, request, ctx.tax.user)
    &&& receipt.tax.split.net_amount == receipt.order.source_amount
}

/// Passes the orchestrator's own gates.
fn check_swap_gates(
    ctx: &ChildSwap,
    request: &TaxRequest,
    mint_ok: bool,
    signature_ok: bool,
    now: i64,
) -> (r: Result<(), SafePumpError>)
    ensures
        failure(r) == swap_gate_failure(*ctx, *request, mint_ok, signature_ok, now),
{
    if !mint_ok {
        return Err(SafePumpError::InvalidMintSuffix);
    }
    if !ctx.contract.is_initialized {
        return Err(SafePumpError::NotInitialized);
    }
    match check_anti_snipe(ctx.contract.swap_count, ctx.contract.bond_timestamp, now) {
        Err(e) => {
            return Err(e);
        },
        Ok(()) => {},
    }
    match check_sell_cooldown(ctx.user_state.last_swap_timestamp, now, request.is_buy) {
        Err(e) => {
            return Err(e);
        },
        Ok(()) => {},
    }
    if !ctx.tax.vault_address.same(&ctx.user_state.vault) {
        return Err(SafePumpError::VaultNotRegistered);
    }
    if ctx.tax.vault.nonce != request.nonce {
        return Err(SafePumpError::ReplayRejected);
    }
    if !signature_ok {
        return Err(SafePumpError::InvalidSignature);
    }
    Ok(())
}

/// Says what the exchange leg is to be asked for a request, given what the
/// checks of the mint's suffix and of the signature said. Nothing is
/// changed; the order is issued exactly when the swap would go through with
/// an exchange leg that carries it out.
pub fn quote_swap_checked(
    ctx: &ChildSwap,
    request: &TaxRequest,
    mint_ok: bool,
    signature_ok: bool,
    now: i64,
    slot: u64,
) -> (r: Result<ExchangeOrder, SafePumpError>)
    requires
        ctx.tax.wf(),
    ensures
        failure(r) == quote_failure(*ctx, *request, mint_ok, signature_ok, now, slot),
        r matches Ok(order) ==> order == order_of(*request),
{
    match check_swap_gates(ctx, request, mint_ok, signature_ok, now) {
        Err(e) => {
            return Err(e);
        },
        Ok(()) => {},
    }
    match check_tax_swap(&ctx.tax, request, signature_ok, now, slot) {
        Err(e) => Err(e),
        Ok(split) => Ok(
            ExchangeOrder {
                source_amount: split.net_amount,
                minimum_out: request.min_out,
                is_buy: request.is_buy,
            },
        ),
    }
}

/// Carries a swap through, given what the tests of the mint's suffix and of
/// the signature said and what the exchange leg answered to the order. The
/// gates are passed, the coordinator taxes the request, and the swap is
/// committed: the time of the user's last swap is set and the nonce has
/// moved on by one. A swap that fails at any point, the exchange leg
/// included, changes nothing.
pub fn swap_checked(
    ctx: &mut ChildSwap,
    request: &TaxRequest,
    mint_ok: bool,
    signature_ok: bool,
    now: i64,
    slot: u64,
    exchange: ExchangeOutcome,
) -> (r: Result<SwapReceipt, SafePumpError>)
    requires
        old(ctx).tax.wf(),
    ensures
        final(ctx).tax.wf(),
        failure(r) == swap_failure(*old(ctx), *request, mint_ok, signature_ok, now, slot, exchange),
        r is Err ==> *final(ctx) == *old(ctx),
        r is Ok ==> swap_committed(*old(ctx), *final(ctx), *request, now, slot),
        r is Ok ==> final(ctx).tax.vault.nonce == old(ctx).tax.vault.nonce + 1,
        r matches Ok(receipt) ==> is_receipt_of(receipt, *old(ctx), *request, exchange),
{
    let order: ExchangeOrder = match quote_swap_checked(
        ctx,
        request,
        mint_ok,
        signature_ok,
        now,
        slot,
    ) {
        Ok(order) => order,
        Err(e) => {
            return Err(e);
        },
    };
    let received: u64 = match exchange {
        ExchangeOutcome::Filled { received } => received,
        ExchangeOutcome::Rejected => {
            return Err(SafePumpError::ExchangeRejected);
        },
    };
    match global_tax_swap_checked(&mut ctx.tax, request, signature_ok, now, slot) {
        Ok(tax) => {
            ctx.user_state.last_swap_timestamp = now;
            Ok(SwapReceipt { tax, order, received })
        },
        Err(e) => Err(e),
    }
}

/// Says what the exchange leg is to be asked for a request. The mint's
/// suffix and the signature are checked here; see `quote_swap_checked`.
pub fn quote_swap(ctx: &ChildSwap, request: &TaxRequest, now: i64, slot: u64) -> (r: Result<
    ExchangeOrder,
    SafePumpError,
>)
    requires
        ctx.tax.wf(),
    ensures
        failure(r) == quote_failure(
            *ctx,
            *request,
            ctx.mint.has_mint_suffix_spec(),
            signature_accepted(
                request.bls_sig@,
                request.bls_pk@,
                message_bytes(ctx.tax.signed_fields(*request)),
            ),
            now,
            slot,
        ),
        r matches Ok(order) ==> order == order_of(*request),
{
    let mint_ok: bool = ctx.mint.has_mint_suffix();
    let signature_ok: bool = verify_signed_fields(&ctx.tax, request);
    quote_swap_checked(ctx, request, mint_ok, signature_ok, now, slot)
}

/// Carries a swap through. The mint's suffix and the signature are tested
/// here, and the coordinator's tax routine tests the signature again for
/// itself; `exchange` is what the exchange leg answered to the order that
/// `quote_swap` issued. See `swap_checked`.
pub fn swap(
    ctx: &mut ChildSwap,
    request: &TaxRequest,
    now: i64,
    slot: u64,
    exchange: ExchangeOutcome,
) -> (r: Result<SwapReceipt, SafePumpError>)
    requires
        old(ctx).tax.wf(),
    ensures
        final(ctx).tax.wf(),
        failure(r) == swap_failure(
            *old(ctx),
            *request,
            old(ctx).mint.has_mint_suffix_spec(),
            signature_accepted(
                request.bls_sig@,
                request.bls_pk@,
                message_bytes(old(ctx).tax.signed_fields(*request)),
            ),
            now,
            slot,
            exchange,
        ),
        r is Err ==> *final(ctx) == *old(ctx),
        r is Ok ==> swap_committed(*old(ctx), *final(ctx), *request, now, slot),
        r is Ok ==> final(ctx).tax.vault.nonce == old(ctx).tax.vault.nonce + 1,
        r matches Ok(receipt) ==> is_receipt_of(receipt, *old(ctx), *request, exchange),
{
    let mint_ok: bool = ctx.mint.has_mint_suffix();
    let signature_ok: bool = verify_signed_fields(&ctx.tax, request);
    let order: ExchangeOrder = match quote_swap_checked(
        ctx,
        request,
        mint_ok,
        signature_ok,
        now,
        slot,
    ) {
        Ok(order) => order,
        Err(e) => {
            return Err(e);
        },
    };
    let received: u64 = match exchange {
        ExchangeOutcome::Filled { received } => received,
        ExchangeOutcome::Rejected => {
            return Err(SafePumpError::ExchangeRejected);
        },
    };
    match global_tax_swap(&mut ctx.tax, request, now, slot) {
        Ok(tax) => {
            ctx.user_state.last_swap_timestamp = now;
            Ok(SwapReceipt { tax, order, received })
        },
        Err(e) => Err(e),
    }
}

} // verus!
