//! The reward ledger and its periodic distribution: a bounded log of pending
//! swapper rewards, one slot per taxed swap, and the pool that is shared
//! among badge holders.

use vstd::prelude::*;
use crate::address::Address;
use crate::badges::{BadgeEntry, BadgeHolderTable};
use crate::error::{failure, SafePumpError};

verus! {

/// Most slots that the reward log holds between two distributions.
pub const REWARD_LOG_CAPACITY: usize = 1000;

/// Seconds between two distributions.
pub const REWARD_DISTRIBUTION_PERIOD: i64 = 86_400;

/// An amount that is owed to a recipient.
#[derive(Clone, Copy, Debug)]
pub struct RewardSlot {
    pub recipient: Address,
    pub amount: u64,
}

/// What a reward ledger holds.
pub struct LedgerState {
    /// The pending swapper rewards, oldest first. Its length is the number
    /// of swaps logged since the last distribution.
    pub slots: Seq<RewardSlot>,
    /// The pool that the badge holders will share.
    pub badge_rewards: u64,
    /// When rewards were last distributed.
    pub last_distribution_timestamp: i64,
    /// The bump seed that the ledger was stored under.
    pub bump: u8,
}

/// The pending rewards and the time of their last distribution.
#[derive(Debug)]
pub struct RewardLedger {
    slots: Vec<RewardSlot>,
    badge_rewards: u64,
    last_distribution_timestamp: i64,
    bump: u8,
}

impl View for RewardLedger {
    type V = LedgerState;

    closed spec fn view(&self) -> LedgerState {
        LedgerState {
            slots: self.slots@,
            badge_rewards: self.badge_rewards,
            last_distribution_timestamp: self.last_distribution_timestamp,
            bump: self.bump,
        }
    }
}

/// The ledger after a swap's rewards were logged: the swapper's reward takes
/// the next free slot, or is dropped once the log is full; the badge reward
/// joins the pool.
pub open spec fn after_record(
    state: LedgerState,
    recipient: Address,
    swapper_reward: u64,
    badge_reward: u64,
) -> LedgerState {
    LedgerState {
        slots: if state.slots.len() < REWARD_LOG_CAPACITY {
            state.slots.push(RewardSlot { recipient, amount: swapper_reward })
        } else {
            state.slots
        },
        badge_rewards: (state.badge_rewards + badge_reward) as u64,
        ..state
    }
}

/// The sum of the pending amounts.
pub open spec fn pending_total(slots: Seq<RewardSlot>) -> int
    decreases slots.len(),
{
    if slots.len() == 0 {
        0
    } else {
        pending_total(slots.drop_last()) + slots.last().amount
    }
}

/// The slots that hold a nonzero amount, in their order.
pub open spec fn pending_payouts(slots: Seq<RewardSlot>) -> Seq<RewardSlot>
    decreases slots.len(),
{
    if slots.len() == 0 {
        Seq::empty()
    } else if slots.last().amount > 0 {
        pending_payouts(slots.drop_last()).push(slots.last())
    } else {
        pending_payouts(slots.drop_last())
    }
}

/// What each badge holder gets from a pool: an equal share, rounded down;
/// nothing where the pool or the table is empty.
pub open spec fn per_holder_of(pool: u64, holder_count: nat) -> int {
    if pool > 0 && holder_count > 0 {
        pool as int / holder_count as int
    } else {
        0
    }
}

/// The payments to the badge holders: one of `per_holder` to each tracked
/// holder, in the table's order; none where the pool or the table is empty.
pub open spec fn badge_payouts_of(pool: u64, entries: Seq<BadgeEntry>) -> Seq<RewardSlot> {
    if pool > 0 && entries.len() > 0 {
        Seq::new(
            entries.len(),
            |i: int|
                RewardSlot {
                    recipient: entries[i].holder,
                    amount: per_holder_of(pool, entries.len()) as u64,
                },
        )
    } else {
        Seq::empty()
    }
}

/// Why a distribution at time `now` fails, if it does.
pub open spec fn distribution_failure(state: LedgerState, now: i64) -> Option<SafePumpError> {
    if now - state.last_distribution_timestamp < REWARD_DISTRIBUTION_PERIOD {
        Some(SafePumpError::DistributionTooSoon)
    } else if pending_total(state.slots) > u64::MAX {
        Some(SafePumpError::Overflow)
    } else {
        None
    }
}

/// The ledger after a distribution at time `now`: an empty log, an empty
/// pool, and `now` as the time of the last distribution.
pub open spec fn after_distribution(state: LedgerState, now: i64) -> LedgerState {
    LedgerState {
        slots: Seq::empty(),
        badge_rewards: 0,
        last_distribution_timestamp: now,
        ..state
    }
}

/// The outcome of a distribution: the payments to make and their totals.
#[derive(Debug)]
pub struct Distribution {
    /// The sum of the swapper payments.
    pub swapper_total: u64,
    /// The sum of the badge payments; the pool's remainder is not in it.
    pub badge_total: u64,
    /// What each badge holder gets.
    pub per_holder: u64,
    /// The swapper payments, oldest first.
    pub swapper_payouts: Vec<RewardSlot>,
    /// The badge payments, in the table's order.
    pub badge_payouts: Vec<RewardSlot>,
}

/// The pending amounts of a prefix add up to no more than those of the whole
/// log.
pub proof fn lemma_pending_total_prefix(slots: Seq<RewardSlot>, n: int)
    requires
        0 <= n <= slots.len(),
    ensures
        0 <= pending_total(slots.subrange(0, n)) <= pending_total(slots),
    decreases slots.len(),
{
    if n == slots.len() {
        assert(slots.subrange(0, n) =~= slots);
        lemma_pending_total_nonnegative(slots);
    } else {
        assert(slots.drop_last().subrange(0, n) =~= slots.subrange(0, n));
        lemma_pending_total_prefix(slots.drop_last(), n);
    }
}

/// The pending amounts add up to nothing negative.
pub proof fn lemma_pending_total_nonnegative(slots: Seq<RewardSlot>)
    ensures
        0 <= pending_total(slots),
    decreases slots.len(),
{
    if slots.len() > 0 {
        lemma_pending_total_nonnegative(slots.drop_last());
    }
}

/// What is paid to the swappers is what was pending: the nonzero slots add
/// up to the same sum as all slots.
pub proof fn lemma_payouts_add_up(slots: Seq<RewardSlot>)
    ensures
        pending_total(pending_payouts(slots)) == pending_total(slots),
        pending_payouts(slots).len() <= slots.len(),
        forall|i: int|
            0 <= i < pending_payouts(slots).len() ==> (#[trigger] pending_payouts(slots)[i]).amount
                > 0,
    decreases slots.len(),
{
    if slots.len() > 0 {
        lemma_payouts_add_up(slots.drop_last());
        if slots.last().amount > 0 {
            let paid = pending_payouts(slots);
            assert(paid.drop_last() =~= pending_payouts(slots.drop_last()));
            assert(paid.last() == slots.last());
        }
    }
}

/// Logging a swap never takes the log over its capacity.
pub proof fn lemma_after_record_keeps_capacity(
    state: LedgerState,
    recipient: Address,
    swapper_reward: u64,
    badge_reward: u64,
)
    requires
        state.slots.len() <= REWARD_LOG_CAPACITY,
    ensures
        after_record(state, recipient, swapper_reward, badge_reward).slots.len()
            <= REWARD_LOG_CAPACITY,
        state.slots.len() <= after_record(
            state,
            recipient,
            swapper_reward,
            badge_reward,
        ).slots.len(),
{
}

/// What is paid to the badge holders never exceeds the pool: the shares
/// together are the pool less the remainder of its division.
pub proof fn lemma_badge_total_within_pool(pool: u64, holder_count: nat)
    ensures
        0 <= per_holder_of(pool, holder_count) * holder_count <= pool,
        holder_count > 0 ==> pool - per_holder_of(pool, holder_count) * holder_count
            < holder_count,
{
    if pool > 0 && holder_count > 0 {
        let per = per_holder_of(pool, holder_count);
        assert(0 <= per * holder_count <= pool && pool - per * holder_count < holder_count)
            by (nonlinear_arith)
            requires
                per == pool as int / holder_count as int,
                holder_count > 0,
                pool >= 0,
        ;
    } else {
        assert(per_holder_of(pool, holder_count) * holder_count == 0) by (nonlinear_arith)
            requires
                per_holder_of(pool, holder_count) == 0,
        ;
    }
}

impl RewardLedger {
    /// The ledger's invariant: the log holds at most its capacity.
    pub open spec fn wf(&self) -> bool {
        self@.slots.len() <= REWARD_LOG_CAPACITY
    }

    /// An empty ledger whose last distribution is taken to be at
    /// `last_distribution_timestamp`.
    pub fn new(last_distribution_timestamp: i64, bump: u8) -> (ledger: RewardLedger)
        ensures
            ledger.wf(),
            ledger@ == (LedgerState {
                slots: Seq::empty(),
                badge_rewards: 0,
                last_distribution_timestamp,
                bump,
            }),
    {
        RewardLedger { slots: Vec::new(), badge_rewards: 0, last_distribution_timestamp, bump }
    }

    /// A ledger of the given parts, if the log is within its capacity.
    pub fn from_parts(
        slots: Vec<RewardSlot>,
        badge_rewards: u64,
        last_distribution_timestamp: i64,
        bump: u8,
    ) -> (r: Option<RewardLedger>)
        ensures
            r is Some <==> slots@.len() <= REWARD_LOG_CAPACITY,
            r matches Some(ledger) ==> ledger.wf() && ledger@ == (LedgerState {
                slots: slots@,
                badge_rewards,
                last_distribution_timestamp,
                bump,
            }),
    {
        if slots.len() > REWARD_LOG_CAPACITY {
            return None;
        }
        Some(RewardLedger { slots, badge_rewards, last_distribution_timestamp, bump })
    }

    /// The pending rewards, oldest first.
    pub fn slots(&self) -> (slots: &Vec<RewardSlot>)
        ensures
            slots@ == self@.slots,
    {
        &self.slots
    }

    /// The bump seed that the ledger was stored under.
    pub fn bump(&self) -> (bump: u8)
        ensures
            bump == self@.bump,
    {
        self.bump
    }

    /// The number of swaps logged since the last distribution.
    pub fn swap_count(&self) -> (n: u64)
        requires
            self.wf(),
        ensures
            n == self@.slots.len(),
            n <= REWARD_LOG_CAPACITY,
    {
        self.slots.len() as u64
    }

    /// The pool that the badge holders will share.
    pub fn badge_rewards(&self) -> (pool: u64)
        ensures
            pool == self@.badge_rewards,
    {
        self.badge_rewards
    }

    /// When rewards were last distributed.
    pub fn last_distribution_timestamp(&self) -> (t: i64)
        ensures
            t == self@.last_distribution_timestamp,
    {
        self.last_distribution_timestamp
    }

    /// The pending reward at a place in the log.
    pub fn slot(&self, index: usize) -> (s: RewardSlot)
        requires
            index < self@.slots.len(),
        ensures
            s == self@.slots[index as int],
    {
        self.slots[index]
    }

    /// Logs the rewards of one taxed swap. The swapper's reward takes the
    /// next free slot, whoever the recipient is and whatever the amount; once
    /// the log is full it is dropped. The badge reward joins the pool. Fails
    /// with `Overflow`, changing nothing, where the pool cannot hold it.
    pub fn record(&mut self, recipient: Address, swapper_reward: u64, badge_reward: u64) -> (r:
        Result<(), SafePumpError>)
        requires
            old(self).wf(),
        ensures
            final(self).wf(),
            r is Err <==> old(self)@.badge_rewards + badge_reward > u64::MAX,
            r is Err ==> failure(r) == Some(SafePumpError::Overflow) && *final(self) == *old(self),
            r is Ok ==> final(self)@ == after_record(
                old(self)@,
                recipient,
                swapper_reward,
                badge_reward,
            ),
            final(self)@.slots.len() <= REWARD_LOG_CAPACITY,
    {
        let pool: u64 = match self.badge_rewards.checked_add(badge_reward) {
            Some(pool) => pool,
            None => {
                return Err(SafePumpError::Overflow);
            },
        };
        if self.slots.len() < REWARD_LOG_CAPACITY {
            self.slots.push(RewardSlot { recipient, amount: swapper_reward });
        }
        self.badge_rewards = pool;
        Ok(())
    }
}

/// Pays out what has accumulated. Refused with `DistributionTooSoon` until a
/// full period has passed since the last distribution. Every nonzero slot of
/// the log is paid in full to its recipient; the badge pool is shared
/// equally among the tracked holders, the remainder of the division being
/// lost. The log and the pool are then emptied and the time is noted. A
/// refused distribution changes nothing.
pub fn distribute(ledger: &mut RewardLedger, holder_table: &BadgeHolderTable, now: i64) -> (r:
    Result<Distribution, SafePumpError>)
    requires
        old(ledger).wf(),
        holder_table.wf(),
    ensures
        final(ledger).wf(),
        failure(r) == distribution_failure(old(ledger)@, now),
        r is Err ==> *final(ledger) == *old(ledger),
        r matches Ok(d) ==> {
            &&& final(ledger)@ == after_distribution(old(ledger)@, now)
            &&& d.swapper_total == pending_total(old(ledger)@.slots)
            &&& d.swapper_payouts@ == pending_payouts(old(ledger)@.slots)
            &&& d.per_holder == per_holder_of(old(ledger)@.badge_rewards, holder_table@.len())
            &&& d.badge_total == d.per_holder * holder_table@.len()
            &&& d.badge_total <= old(ledger)@.badge_rewards
            &&& d.badge_payouts@ == badge_payouts_of(old(ledger)@.badge_rewards, holder_table@)
        },
{
    if (now as i128) - (ledger.last_distribution_timestamp as i128) < (
    REWARD_DISTRIBUTION_PERIOD as i128) {
        return Err(SafePumpError::DistributionTooSoon);
    }
    let mut swapper_total: u64 = 0;
    let mut swapper_payouts: Vec<RewardSlot> = Vec::new();
    let mut i: usize = 0;
    assert(ledger.slots@.subrange(0, 0) =~= Seq::<RewardSlot>::empty());
    while i < ledger.slots.len()
        invariant
            0 <= i <= ledger.slots@.len(),
            *ledger == *old(ledger),
            old(ledger).wf(),
            now - old(ledger)@.last_distribution_timestamp >= REWARD_DISTRIBUTION_PERIOD,
            swapper_total == pending_total(ledger.slots@.subrange(0, i as int)),
            swapper_payouts@ == pending_payouts(ledger.slots@.subrange(0, i as int)),
        decreases ledger.slots@.len() - i,
    {
        let slot: RewardSlot = ledger.slots[i];
        proof {
            let next = ledger.slots@.subrange(0, i + 1);
            assert(next.drop_last() =~= ledger.slots@.subrange(0, i as int));
            assert(next.last() == slot);
            lemma_pending_total_prefix(ledger.slots@, i + 1);
        }
        match swapper_total.checked_add(slot.amount) {
            Some(sum) => {
                swapper_total = sum;
            },
            None => {
                return Err(SafePumpError::Overflow);
            },
        }
        if slot.amount > 0 {
            swapper_payouts.push(slot);
        }
        i += 1;
    }
    assert(ledger.slots@.subrange(0, i as int) =~= ledger.slots@);
    let pool: u64 = ledger.badge_rewards;
    let holder_count: u64 = holder_table.holder_count();
    let mut per_holder: u64 = 0;
    let mut badge_total: u64 = 0;
    let mut badge_payouts: Vec<RewardSlot> = Vec::new();
    if pool > 0 && holder_count > 0 {
        per_holder = pool / holder_count;
        assert(per_holder * holder_count <= pool) by (nonlinear_arith)
            requires
                per_holder == pool / holder_count,
                holder_count > 0,
        ;
        badge_total = per_holder * holder_count;
        let mut k: usize = 0;
        while k < holder_count as usize
            invariant
                holder_table.wf(),
                holder_count == holder_table@.len(),
                0 <= k <= holder_count,
                badge_payouts@.len() == k,
                forall|j: int|
                    0 <= j < k ==> badge_payouts@[j] == (RewardSlot {
                        recipient: holder_table@[j].holder,
                        amount: per_holder,
                    }),
            decreases holder_count - k,
        {
            let entry: BadgeEntry = holder_table.entry(k);
            badge_payouts.push(RewardSlot { recipient: entry.holder, amount: per_holder });
            k += 1;
        }
        assert(badge_payouts@ =~= badge_payouts_of(pool, holder_table@));
    } else {
        assert(badge_total == per_holder * holder_table@.len());
    }
    ledger.slots = Vec::new();
    ledger.badge_rewards = 0;
    ledger.last_distribution_timestamp = now;
    Ok(Distribution { swapper_total, badge_total, per_holder, swapper_payouts, badge_payouts })
}

} // verus!
