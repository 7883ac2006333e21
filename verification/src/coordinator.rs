//! The coordinator's tax routine: the gates, the velocity window, the tax
//! split and the reward bookkeeping of one swap, applied as a whole or not
//! at all.

use vstd::prelude::*;
use crate::address::Address;
use crate::admission::{anti_snipe_blocks, check_anti_snipe, VelocityWindow};
use crate::badges::{after_buy, buys_of, BadgeHolderTable};
use crate::error::{failure, SafePumpError};
use crate::nonce::NonceVault;
use crate::rewards::{after_record, RewardLedger};
use crate::signature::{message_bytes, signature_accepted, verify_request, SwapRequest};
use crate::tax::{
    allocation_of, apply_global_tax, global_tax_rates, is_tax_split, total_tax_of, TaxSplit,
    BADGE_SHARE, GLOBAL_TAX_BPS, LP_SHARE, SWAPPER_SHARE, TREASURY_SHARE,
};
use crate::tier::{velocity_cap, velocity_cap_of};

verus! {

/// The coordinator's own record: one for the whole exchange.
#[derive(Clone, Copy, Debug)]
pub struct GlobalState {
    pub is_initialized: bool,
    pub treasury_wallet: Address,
    pub total_swapped: u64,
    pub swap_count: u64,
    pub bond_timestamp: i64,
    pub bump: u8,
}

/// A swap request as the coordinator receives it: the signed parameters,
/// the signature and the key that it is made under.
#[derive(Clone, Copy, Debug)]
pub struct TaxRequest {
    pub amount_in: u64,
    pub is_buy: bool,
    pub min_out: u64,
    pub bls_sig: [u8; 96],
    pub bls_pk: [u8; 48],
    pub nonce: u64,
}

/// The pools that the tax routine pays into at once.
#[derive(Clone, Copy, Debug, PartialEq, Eq, Structural)]
pub enum Pool {
    Liquidity,
    Treasury,
}

/// A payment from the user's account into a pool.
#[derive(Clone, Copy, Debug)]
pub struct PoolTransfer {
    pub pool: Pool,
    pub amount: u64,
}

/// The notice of a collected tax.
#[derive(Clone, Copy, Debug)]
pub struct GlobalTaxCollected {
    pub amount_in: u64,
    pub total_tax: u64,
    pub user: Address,
    pub is_buy: bool,
}

/// What the tax routine answers: the split, the payments to make at once,
/// and the notice to publish.
#[derive(Debug)]
pub struct TaxResult {
    pub split: TaxSplit,
    pub transfers: Vec<PoolTransfer>,
    pub collected: GlobalTaxCollected,
}

/// The records that the tax routine reads and writes for one user in one
/// block.
#[derive(Debug)]
pub struct GlobalTaxSwap {
    pub global_state: GlobalState,
    /// The requester.
    pub user: Address,
    /// The address of the vault that was presented.
    pub vault_address: Address,
    /// The address at which the requester's vault is registered.
    pub expected_vault: Address,
    pub vault: NonceVault,
    pub rewards: RewardLedger,
    pub badge_holders: BadgeHolderTable,
    pub velocity: VelocityWindow,
}

impl GlobalTaxSwap {
    /// The records' invariants.
    pub open spec fn wf(&self) -> bool {
        self.rewards.wf() && self.badge_holders.wf()
    }

    /// The parameters that a signature for `request` covers.
    pub open spec fn signed_fields(&self, request: TaxRequest) -> SwapRequest {
        signed_fields(self.user, request)
    }
}

/// The parameters that a signature for a request of `user` covers.
pub open spec fn signed_fields(user: Address, request: TaxRequest) -> SwapRequest {
    SwapRequest {
        amount: request.amount_in,
        is_buy: request.is_buy,
        min_out: request.min_out,
        nonce: request.nonce,
        user,
    }
}

/// What a child asset asks of the coordinator: to examine a request, and to
/// tax it. A child reaches the coordinator's records through this interface
/// only.
pub trait SwapDelegate: Sized {
    /// The invariants of the delegate's records.
    spec fn delegate_wf(&self) -> bool;

    /// The requester whose records these are.
    spec fn requester(&self) -> Address;

    /// The requester's current nonce.
    spec fn nonce(&self) -> u64;

    /// Why the tax routine fails for a request, if it does.
    spec fn tax_failure(
        &self,
        request: TaxRequest,
        signature_ok: bool,
        now: i64,
        slot: u64,
    ) -> Option<SafePumpError>;

    /// Whether `after` is what the tax routine leaves of these records when
    /// it lets the request through in block `slot`.
    spec fn tax_applied(&self, after: Self, request: TaxRequest, slot: u64) -> bool;

    /// Whether the delegate accepts the signature of a request for these
    /// records' requester.
    spec fn verdict(&self, request: TaxRequest) -> bool;

    /// The requester whose records these are.
    fn requester_address(&self) -> (user: Address)
        ensures
            user == self.requester(),
    ;

    /// Examines a request without changing a record, given what a test of
    /// its signature said.
    fn examine_checked(
        &self,
        request: &TaxRequest,
        signature_ok: bool,
        now: i64,
        slot: u64,
    ) -> (r: Result<TaxSplit, SafePumpError>)
        requires
            self.delegate_wf(),
        ensures
            failure(r) == self.tax_failure(*request, signature_ok, now, slot),
            r matches Ok(split) ==> is_tax_split(
                split,
                request.amount_in,
                GLOBAL_TAX_BPS,
                global_tax_rates(),
            ) && split.net_amount + split.total_tax == request.amount_in,
    ;

    /// Taxes a request, given what a test of its signature said. A request
    /// that is turned down changes nothing; one that is let through moves
    /// the nonce on by one.
    fn collect_checked(
        &mut self,
        request: &TaxRequest,
        signature_ok: bool,
        now: i64,
        slot: u64,
    ) -> (r: Result<TaxResult, SafePumpError>)
        requires
            old(self).delegate_wf(),
        ensures
            final(self).delegate_wf(),
            failure(r) == old(self).tax_failure(*request, signature_ok, now, slot),
            r is Err ==> *final(self) == *old(self),
            r is Ok ==> old(self).tax_applied(*final(self), *request, slot),
            r is Ok ==> final(self).nonce() == old(self).nonce() + 1,
            r matches Ok(res) ==> is_tax_result(res, *request, old(self).requester()),
    ;

    /// Examines a request without changing a record. The delegate tests
    /// the signature itself and takes nobody's word for it.
    fn examine(&self, request: &TaxRequest, now: i64, slot: u64) -> (r: Result<
        TaxSplit,
        SafePumpError,
    >)
        requires
            self.delegate_wf(),
        ensures
            failure(r) == self.tax_failure(*request, self.verdict(*request), now, slot),
            r matches Ok(split) ==> is_tax_split(
                split,
                request.amount_in,
                GLOBAL_TAX_BPS,
                global_tax_rates(),
            ) && split.net_amount + split.total_tax == request.amount_in,
    ;

    /// Taxes a request. The delegate tests the signature itself and takes
    /// nobody's word for it. A request that is turned down changes nothing;
    /// one that is let through moves the nonce on by one.
    fn collect(&mut self, request: &TaxRequest, now: i64, slot: u64) -> (r: Result<
        TaxResult,
        SafePumpError,
    >)
        requires
            old(self).delegate_wf(),
        ensures
            final(self).delegate_wf(),
            failure(r) == old(self).tax_failure(
                *request,
                old(self).verdict(*request),
                now,
                slot,
            ),
            r is Err ==> *final(self) == *old(self),
            r is Ok ==> old(self).tax_applied(*final(self), *request, slot),
            r is Ok ==> final(self).nonce() == old(self).nonce() + 1,
            r matches Ok(res) ==> is_tax_result(res, *request, old(self).requester()),
    ;

    /// A request that was taxed is not taxed a second time.
    proof fn lemma_taxed_once(
        &self,
        after: Self,
        request: TaxRequest,
        signature_ok: bool,
        now: i64,
        slot: u64,
        signature_ok_again: bool,
        later: i64,
        later_slot: u64,
    )
        requires
            self.tax_failure(request, signature_ok, now, slot) is None,
            self.tax_applied(after, request, slot),
        ensures
            after.nonce() == self.nonce() + 1,
            after.tax_failure(request, signature_ok_again, later, later_slot) is Some,
    ;
}

/// The swapper's reward on `amount`.
pub open spec fn swapper_reward_of(amount: u64) -> int {
    allocation_of(
        total_tax_of(amount, GLOBAL_TAX_BPS),
        global_tax_rates()[SWAPPER_SHARE as int],
        GLOBAL_TAX_BPS,
    )
}

/// The badge holders' reward on `amount`.
pub open spec fn badge_reward_of(amount: u64) -> int {
    allocation_of(
        total_tax_of(amount, GLOBAL_TAX_BPS),
        global_tax_rates()[BADGE_SHARE as int],
        GLOBAL_TAX_BPS,
    )
}

/// Which gate turns the request down, if any, in the order in which they
/// are passed: the coordinator is set up; the launch cooldown; the vault is
/// the registered one; the nonce is current; the signature holds.
pub open spec fn gate_failure(
    ctx: GlobalTaxSwap,
    request: TaxRequest,
    signature_ok: bool,
    now: i64,
) -> Option<SafePumpError> {
    if !ctx.global_state.is_initialized {
        Some(SafePumpError::NotInitialized)
    } else if anti_snipe_blocks(ctx.global_state.swap_count, ctx.global_state.bond_timestamp, now) {
        Some(SafePumpError::AntiSnipeCooldown)
    } else if ctx.vault_address != ctx.expected_vault {
        Some(SafePumpError::VaultNotRegistered)
    } else if ctx.vault.nonce != request.nonce {
        Some(SafePumpError::ReplayRejected)
    } else if !signature_ok {
        Some(SafePumpError::InvalidSignature)
    } else {
        None
    }
}

/// Whether a counter of the request's bookkeeping would leave its range:
/// the badge pool, the buyer's buy count, the swap count, the swapped
/// volume or the nonce.
pub open spec fn bookkeeping_overflows(ctx: GlobalTaxSwap, request: TaxRequest) -> bool {
    ||| ctx.rewards@.badge_rewards + badge_reward_of(request.amount_in) > u64::MAX
    ||| request.is_buy && buys_of(ctx.badge_holders@, ctx.user) == u64::MAX
    ||| ctx.global_state.swap_count == u64::MAX
    ||| ctx.global_state.total_swapped + request.amount_in > u64::MAX
    ||| ctx.vault.nonce == u64::MAX
}

/// Why the tax routine fails, if it does: a gate, then the velocity window
/// under the cap of the swapped volume's tier, then the bookkeeping.
pub open spec fn tax_swap_failure(
    ctx: GlobalTaxSwap,
    request: TaxRequest,
    signature_ok: bool,
    now: i64,
    slot: u64,
) -> Option<SafePumpError> {
    let window_failure = ctx.velocity.velocity_failure(
        slot,
        request.amount_in,
        request.is_buy,
        velocity_cap_of(ctx.global_state.total_swapped) as u64,
    );
    if gate_failure(ctx, request, signature_ok, now) is Some {
        gate_failure(ctx, request, signature_ok, now)
    } else if window_failure is Some {
        window_failure
    } else if bookkeeping_overflows(ctx, request) {
        Some(SafePumpError::Overflow)
    } else {
        None
    }
}

/// The payments that a split asks for at once: the liquidity pool's share
/// and the treasury's, each only if it is not zero.
pub open spec fn pool_transfers_of(split: TaxSplit) -> Seq<PoolTransfer> {
    let lp = split.allocations@[LP_SHARE as int];
    let treasury = split.allocations@[TREASURY_SHARE as int];
    let first = if lp > 0 {
        seq![PoolTransfer { pool: Pool::Liquidity, amount: lp }]
    } else {
        Seq::<PoolTransfer>::empty()
    };
    if treasury > 0 {
        first.push(PoolTransfer { pool: Pool::Treasury, amount: treasury })
    } else {
        first
    }
}

/// Whether `after` is what the tax routine leaves of `before` when it lets
/// the request through in block `slot`.
pub open spec fn tax_swap_applied(
    before: GlobalTaxSwap,
    after: GlobalTaxSwap,
    request: TaxRequest,
    slot: u64,
) -> bool {
    &&& after.global_state == (GlobalState {
        swap_count: (before.global_state.swap_count + 1) as u64,
        total_swapped: (before.global_state.total_swapped + request.amount_in) as u64,
        ..before.global_state
    })
    &&& after.user == before.user
    &&& after.vault_address == before.vault_address
    &&& after.expected_vault == before.expected_vault
    &&& after.vault == (NonceVault { nonce: (before.vault.nonce + 1) as u64, ..before.vault })
    &&& after.velocity == before.velocity.after_swap(slot, request.amount_in, request.is_buy)
    &&& after.rewards@ == after_record(
        before.rewards@,
        before.user,
        swapper_reward_of(request.amount_in) as u64,
        badge_reward_of(request.amount_in) as u64,
    )
    &&& after.badge_holders@ == if request.is_buy {
        after_buy(before.badge_holders@, before.user)
    } else {
        before.badge_holders@
    }
    &&& after.badge_holders.bump_spec() == before.badge_holders.bump_spec()
}

/// Whether `result` is what the tax routine answers to an accepted request
/// of `user`: the split of the amount at the protocol's rates, the payments
/// that the split asks for at once, and the notice of the collected tax.
pub open spec fn is_tax_result(result: TaxResult, request: TaxRequest, user: Address) -> bool {
    &&& is_tax_split(result.split, request.amount_in, GLOBAL_TAX_BPS, global_tax_rates())
    &&& result.split.net_amount + result.split.total_tax == request.amount_in
    &&& result.transfers@ == pool_transfers_of(result.split)
    &&& result.collected == (GlobalTaxCollected {
        amount_in: request.amount_in,
        total_tax: result.split.total_tax,
        user,
        is_buy: request.is_buy,
    })
}

/// Tests the request's signature over its parameters and the requester.
pub fn verify_signed_fields(ctx: &GlobalTaxSwap, request: &TaxRequest) -> (ok: bool)
    ensures
        ok == signature_accepted(
            request.bls_sig@,
            request.bls_pk@,
            message_bytes(ctx.signed_fields(*request)),
        ),
{
    let fields = SwapRequest {
        amount: request.amount_in,
        is_buy: request.is_buy,
        min_out: request.min_out,
        nonce: request.nonce,
        user: ctx.user,
    };
    verify_request(request.bls_sig, request.bls_pk, &fields)
}

/// Lists the payments that a split asks for at once.
pub fn pool_transfers(split: &TaxSplit) -> (transfers: Vec<PoolTransfer>)
    ensures
        transfers@ == pool_transfers_of(*split),
{
    let mut transfers: Vec<PoolTransfer> = Vec::new();
    let lp: u64 = split.allocations[LP_SHARE];
    let treasury: u64 = split.allocations[TREASURY_SHARE];
    if lp > 0 {
        transfers.push(PoolTransfer { pool: Pool::Liquidity, amount: lp });
    }
    if treasury > 0 {
        transfers.push(PoolTransfer { pool: Pool::Treasury, amount: treasury });
    }
    assert(transfers@ =~= pool_transfers_of(*split));
    transfers
}

/// Passes the tax routine's gates.
pub fn check_tax_gates(ctx: &GlobalTaxSwap, request: &TaxRequest, signature_ok: bool, now: i64) -> (r:
    Result<(), SafePumpError>)
    ensures
        failure(r) == gate_failure(*ctx, *request, signature_ok, now),
{
    if !ctx.global_state.is_initialized {
        return Err(SafePumpError::NotInitialized);
    }
    match check_anti_snipe(ctx.global_state.swap_count, ctx.global_state.bond_timestamp, now) {
        Err(e) => {
            return Err(e);
        },
        Ok(()) => {},
    }
    if !ctx.vault_address.same(&ctx.expected_vault) {
        return Err(SafePumpError::VaultNotRegistered);
    }
    if ctx.vault.nonce != request.nonce {
        return Err(SafePumpError::ReplayRejected);
    }
    if !signature_ok {
        return Err(SafePumpError::InvalidSignature);
    }
    Ok(())
}

/// Examines a request without changing a record: the tax split where the
/// tax routine would let the request through, the refusing guard's or counter's
/// error where it would not.
pub fn check_tax_swap(
    ctx: &GlobalTaxSwap,
    request: &TaxRequest,
    signature_ok: bool,
    now: i64,
    slot: u64,
) -> (r: Result<TaxSplit, SafePumpError>)
    requires
        ctx.wf(),
    ensures
        failure(r) == tax_swap_failure(*ctx, *request, signature_ok, now, slot),
        r matches Ok(split) ==> is_tax_split(
            split,
            request.amount_in,
            GLOBAL_TAX_BPS,
            global_tax_rates(),
        ) && split.net_amount + split.total_tax == request.amount_in,
{
    match check_tax_gates(ctx, request, signature_ok, now) {
        Err(e) => {
            return Err(e);
        },
        Ok(()) => {},
    }
    let cap: u64 = velocity_cap(ctx.global_state.total_swapped);
    let mut window: VelocityWindow = ctx.velocity;
    match window.record(slot, request.amount_in, request.is_buy, cap) {
        Err(e) => {
            return Err(e);
        },
        Ok(()) => {},
    }
    let split: TaxSplit = apply_global_tax(request.amount_in);
    let badge_reward: u64 = split.allocations[BADGE_SHARE];
    assert(badge_reward == badge_reward_of(request.amount_in));
    if ctx.rewards.badge_rewards().checked_add(badge_reward).is_none() {
        return Err(SafePumpError::Overflow);
    }
    if request.is_buy && ctx.badge_holders.buy_count(&ctx.user) == u64::MAX {
        return Err(SafePumpError::Overflow);
    }
    if ctx.global_state.swap_count == u64::MAX {
        return Err(SafePumpError::Overflow);
    }
    if ctx.global_state.total_swapped.checked_add(request.amount_in).is_none() {
        return Err(SafePumpError::Overflow);
    }
    if ctx.vault.nonce == u64::MAX {
        return Err(SafePumpError::Overflow);
    }
    Ok(split)
}

/// The tax routine for a request whose signature has been checked:
/// `signature_ok` says whether it was accepted. The gates are passed in
/// order; a buy is counted against the block's cap at the tier of the volume
/// swapped so far; the tax is split; the swapper's reward is logged and the
/// badge reward pooled; a buy is noted in the badge table; the counters and
/// the nonce move on. A request that is turned down changes nothing.
pub fn global_tax_swap_checked(
    ctx: &mut GlobalTaxSwap,
    request: &TaxRequest,
    signature_ok: bool,
    now: i64,
    slot: u64,
) -> (r: Result<TaxResult, SafePumpError>)
    requires
        old(ctx).wf(),
    ensures
        final(ctx).wf(),
        failure(r) == tax_swap_failure(*old(ctx), *request, signature_ok, now, slot),
        r is Err ==> *final(ctx) == *old(ctx),
        r is Ok ==> tax_swap_applied(*old(ctx), *final(ctx), *request, slot),
        r is Ok ==> final(ctx).vault.nonce == old(ctx).vault.nonce + 1,
        r is Ok && request.is_buy && old(ctx).velocity.block_slot != slot
            ==> final(ctx).velocity.total_bought_sol == request.amount_in,
        r matches Ok(res) ==> is_tax_result(res, *request, old(ctx).user),
{
    let split: TaxSplit = match check_tax_swap(ctx, request, signature_ok, now, slot) {
        Ok(split) => split,
        Err(e) => {
            return Err(e);
        },
    };
    let swapper_reward: u64 = split.allocations[SWAPPER_SHARE];
    let badge_reward: u64 = split.allocations[BADGE_SHARE];
    assert(swapper_reward == swapper_reward_of(request.amount_in));
    assert(badge_reward == badge_reward_of(request.amount_in));
    let user: Address = ctx.user;
    let logged = ctx.rewards.record(user, swapper_reward, badge_reward);
    assert(logged is Ok);
    if request.is_buy {
        let noted = ctx.badge_holders.record_buy(user);
        assert(noted is Ok);
    }
    ctx.velocity.roll(slot);
    if request.is_buy {
        ctx.velocity.total_bought_sol = ctx.velocity.total_bought_sol + request.amount_in;
    }
    ctx.global_state.swap_count = ctx.global_state.swap_count + 1;
    ctx.global_state.total_swapped = ctx.global_state.total_swapped + request.amount_in;
    ctx.vault.nonce = ctx.vault.nonce + 1;
    let transfers = pool_transfers(&split);
    Ok(
        TaxResult {
            split,
            transfers,
            collected: GlobalTaxCollected {
                amount_in: request.amount_in,
                total_tax: split.total_tax,
                user,
                is_buy: request.is_buy,
            },
        },
    )
}

/// The coordinator's tax routine. The signature is verified over the exact
/// parameters of the request and the requester's address, and the request
/// is then handled as `global_tax_swap_checked` says.
pub fn global_tax_swap(ctx: &mut GlobalTaxSwap, request: &TaxRequest, now: i64, slot: u64) -> (r:
    Result<TaxResult, SafePumpError>)
    requires
        old(ctx).wf(),
    ensures
        final(ctx).wf(),
        failure(r) == tax_swap_failure(
            *old(ctx),
            *request,
            signature_accepted(
                request.bls_sig@,
                request.bls_pk@,
                message_bytes(old(ctx).signed_fields(*request)),
            ),
            now,
            slot,
        ),
        r is Err ==> *final(ctx) == *old(ctx),
        r is Ok ==> tax_swap_applied(*old(ctx), *final(ctx), *request, slot),
        r is Ok ==> final(ctx).vault.nonce == old(ctx).vault.nonce + 1,
        r is Ok && request.is_buy && old(ctx).velocity.block_slot != slot
            ==> final(ctx).velocity.total_bought_sol == request.amount_in,
        r matches Ok(res) ==> is_tax_result(res, *request, old(ctx).user),
{
    let signature_ok: bool = verify_signed_fields(ctx, request);
    global_tax_swap_checked(ctx, request, signature_ok, now, slot)
}

impl SwapDelegate for GlobalTaxSwap {
    open spec fn delegate_wf(&self) -> bool {
        self.wf()
    }

    open spec fn requester(&self) -> Address {
        self.user
    }

    open spec fn nonce(&self) -> u64 {
        self.vault.nonce
    }

    open spec fn tax_failure(
        &self,
        request: TaxRequest,
        signature_ok: bool,
        now: i64,
        slot: u64,
    ) -> Option<SafePumpError> {
        tax_swap_failure(*self, request, signature_ok, now, slot)
    }

    open spec fn tax_applied(&self, after: GlobalTaxSwap, request: TaxRequest, slot: u64) -> bool {
        tax_swap_applied(*self, after, request, slot)
    }

    open spec fn verdict(&self, request: TaxRequest) -> bool {
        signature_accepted(
            request.bls_sig@,
            request.bls_pk@,
            message_bytes(self.signed_fields(request)),
        )
    }

    fn requester_address(&self) -> (user: Address) {
        self.user
    }

    fn examine_checked(
        &self,
        request: &TaxRequest,
        signature_ok: bool,
        now: i64,
        slot: u64,
    ) -> (r: Result<TaxSplit, SafePumpError>) {
        check_tax_swap(self, request, signature_ok, now, slot)
    }

    fn collect_checked(
        &mut self,
        request: &TaxRequest,
        signature_ok: bool,
        now: i64,
        slot: u64,
    ) -> (r: Result<TaxResult, SafePumpError>) {
        global_tax_swap_checked(self, request, signature_ok, now, slot)
    }

    fn examine(&self, request: &TaxRequest, now: i64, slot: u64) -> (r: Result<
        TaxSplit,
        SafePumpError,
    >) {
        let signature_ok: bool = verify_signed_fields(self, request);
        check_tax_swap(self, request, signature_ok, now, slot)
    }

    fn collect(&mut self, request: &TaxRequest, now: i64, slot: u64) -> (r: Result<
        TaxResult,
        SafePumpError,
    >) {
        global_tax_swap(self, request, now, slot)
    }

    proof fn lemma_taxed_once(
        &self,
        after: GlobalTaxSwap,
        request: TaxRequest,
        signature_ok: bool,
        now: i64,
        slot: u64,
        signature_ok_again: bool,
        later: i64,
        later_slot: u64,
    ) {
        lemma_replay_rejected(
            *self,
            after,
            request,
            signature_ok,
            now,
            slot,
            signature_ok_again,
            later,
            later_slot,
        );
    }
}

/// A request that went through does not go through a second time: once the
/// tax routine has let a request pass, the same request is turned down with
/// `ReplayRejected`, at whatever time, in whatever block and whatever its
/// signature check says.
pub proof fn lemma_replay_rejected(
    before: GlobalTaxSwap,
    after: GlobalTaxSwap,
    request: TaxRequest,
    signature_ok: bool,
    now: i64,
    slot: u64,
    signature_ok_again: bool,
    later: i64,
    later_slot: u64,
)
    requires
        tax_swap_failure(before, request, signature_ok, now, slot) is None,
        tax_swap_applied(before, after, request, slot),
    ensures
        after.vault.nonce == before.vault.nonce + 1,
        tax_swap_failure(after, request, signature_ok_again, later, later_slot) == Some(
            SafePumpError::ReplayRejected,
        ),
{
    assert(!bookkeeping_overflows(before, request));
    assert(gate_failure(before, request, signature_ok, now) is None);
    assert(gate_failure(after, request, signature_ok_again, later) == Some(
        SafePumpError::ReplayRejected,
    ));
}

/// A request with a nonce other than the vault's is turned down, unless an
/// earlier gate turns it down first, and only an accepted request moves the
/// nonce.
pub proof fn lemma_stale_nonce_rejected(
    ctx: GlobalTaxSwap,
    request: TaxRequest,
    signature_ok: bool,
    now: i64,
    slot: u64,
)
    requires
        request.nonce != ctx.vault.nonce,
    ensures
        tax_swap_failure(ctx, request, signature_ok, now, slot) is Some,
{
}

} // verus!
