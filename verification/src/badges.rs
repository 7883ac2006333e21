//! The badge holder table: how often each buyer has bought, for a bounded
//! number of distinct buyers in the order in which they first bought.

use vstd::prelude::*;
use crate::address::Address;
use crate::error::{failure, SafePumpError};

verus! {

/// Most distinct holders that the table tracks.
pub const MAX_BADGE_HOLDERS: usize = 1000;

/// Buys that earn a badge.
pub const BUY_SWAPS_FOR_BADGE: u64 = 1000;

/// One tracked buyer and the number of that buyer's buys.
#[derive(Clone, Copy, Debug)]
pub struct BadgeEntry {
    pub holder: Address,
    pub buy_count: u64,
}

/// Whether some entry is `holder`'s.
pub open spec fn holds(entries: Seq<BadgeEntry>, holder: Address) -> bool {
    exists|i: int| 0 <= i < entries.len() && entries[i].holder == holder
}

/// The place of an entry of `holder`.
pub open spec fn slot_of(entries: Seq<BadgeEntry>, holder: Address) -> int {
    choose|i: int| 0 <= i < entries.len() && entries[i].holder == holder
}

/// Whether no two entries share a holder.
pub open spec fn distinct_holders(entries: Seq<BadgeEntry>) -> bool {
    forall|i: int, j: int|
        0 <= i < j < entries.len() ==> entries[i].holder != entries[j].holder
}

/// The number of buys recorded for `holder`; zero for an unknown holder.
pub open spec fn buys_of(entries: Seq<BadgeEntry>, holder: Address) -> int {
    if holds(entries, holder) {
        entries[slot_of(entries, holder)].buy_count as int
    } else {
        0
    }
}

/// The table after a buy by `holder`: a known holder's count grows by one;
/// an unknown holder is appended with count one while there is room; once
/// the table is full an unknown holder changes nothing.
pub open spec fn after_buy(entries: Seq<BadgeEntry>, holder: Address) -> Seq<BadgeEntry> {
    if holds(entries, holder) {
        let i = slot_of(entries, holder);
        entries.update(i, BadgeEntry { holder, buy_count: (entries[i].buy_count + 1) as u64 })
    } else if entries.len() < MAX_BADGE_HOLDERS {
        entries.push(BadgeEntry { holder, buy_count: 1 })
    } else {
        entries
    }
}

/// A bounded table of distinct buyers with their buy counts, in the order of
/// their first buy.
#[derive(Debug)]
pub struct BadgeHolderTable {
    entries: Vec<BadgeEntry>,
    bump: u8,
}

impl View for BadgeHolderTable {
    type V = Seq<BadgeEntry>;

    closed spec fn view(&self) -> Seq<BadgeEntry> {
        self.entries@
    }
}

impl BadgeHolderTable {
    /// The table's invariant: at most the capacity, and no holder twice.
    pub open spec fn wf(&self) -> bool {
        &&& self@.len() <= MAX_BADGE_HOLDERS
        &&& distinct_holders(self@)
    }

    /// An empty table.
    pub fn new(bump: u8) -> (table: BadgeHolderTable)
        ensures
            table.wf(),
            table@ == Seq::<BadgeEntry>::empty(),
            table.bump_spec() == bump,
    {
        BadgeHolderTable { entries: Vec::new(), bump }
    }

    /// A table of the given entries, if they are a table's: at most the
    /// capacity, and no holder twice.
    pub fn from_entries(entries: Vec<BadgeEntry>, bump: u8) -> (r: Option<BadgeHolderTable>)
        ensures
            r is Some <==> entries@.len() <= MAX_BADGE_HOLDERS && distinct_holders(entries@),
            r matches Some(table) ==> table.wf() && table@ == entries@ && table.bump_spec() == bump,
    {
        if entries.len() > MAX_BADGE_HOLDERS {
            return None;
        }
        let mut j: usize = 0;
        while j < entries.len()
            invariant
                0 <= j <= entries@.len(),
                forall|a: int, b: int| 0 <= a < b < j ==> entries@[a].holder != entries@[b].holder,
            decreases entries@.len() - j,
        {
            let mut i: usize = 0;
            while i < j
                invariant
                    0 <= i <= j < entries@.len(),
                    forall|a: int| 0 <= a < i ==> entries@[a].holder != entries@[j as int].holder,
                decreases j - i,
            {
                if entries[i].holder.same(&entries[j].holder) {
                    return None;
                }
                i += 1;
            }
            j += 1;
        }
        Some(BadgeHolderTable { entries, bump })
    }

    /// The entries, in the order of the holders' first buys.
    pub fn entries(&self) -> (entries: &Vec<BadgeEntry>)
        ensures
            entries@ == self@,
    {
        &self.entries
    }

    /// The bump seed that the table was stored under.
    pub closed spec fn bump_spec(&self) -> u8 {
        self.bump
    }

    /// The bump seed that the table was stored under.
    pub fn bump(&self) -> (b: u8)
        ensures
            b == self.bump_spec(),
    {
        self.bump
    }

    /// The number of distinct holders.
    pub fn holder_count(&self) -> (n: u64)
        requires
            self.wf(),
        ensures
            n == self@.len(),
            n <= MAX_BADGE_HOLDERS,
    {
        self.entries.len() as u64
    }

    /// The entry at a place.
    pub fn entry(&self, index: usize) -> (e: BadgeEntry)
        requires
            index < self@.len(),
        ensures
            e == self@[index as int],
    {
        self.entries[index]
    }

    /// Where `holder` stands in the table, if anywhere.
    pub fn position(&self, holder: &Address) -> (r: Option<usize>)
        requires
            self.wf(),
        ensures
            r is Some <==> holds(self@, *holder),
            r matches Some(i) ==> i == slot_of(self@, *holder) && i < self@.len() && self@[i as int].holder
                == *holder,
    {
        let mut i: usize = 0;
        while i < self.entries.len()
            invariant
                self.wf(),
                0 <= i <= self.entries@.len(),
                forall|j: int| 0 <= j < i ==> self.entries@[j].holder != *holder,
            decreases self.entries@.len() - i,
        {
            if self.entries[i].holder.same(holder) {
                proof {
                    let k = slot_of(self@, *holder);
                    assert(0 <= k < self@.len() && self@[k].holder == *holder);
                    if k < i {
                        assert(self@[k].holder != self@[i as int].holder);
                    }
                    if i < k {
                        assert(self@[i as int].holder != self@[k].holder);
                    }
                }
                return Some(i);
            }
            i += 1;
        }
        None
    }

    /// The number of buys recorded for `holder`; zero for an unknown holder.
    pub fn buy_count(&self, holder: &Address) -> (n: u64)
        requires
            self.wf(),
        ensures
            n == buys_of(self@, *holder),
    {
        match self.position(holder) {
            Some(i) => self.entries[i].buy_count,
            None => 0,
        }
    }

    /// Records a buy by `holder`. A known holder's count grows by one; an
    /// unknown holder is appended with count one while the table has room;
    /// once it is full an unknown holder is passed over without an error.
    /// Fails with `Overflow`, changing nothing, where a count cannot grow.
    pub fn record_buy(&mut self, holder: Address) -> (r: Result<(), SafePumpError>)
        requires
            old(self).wf(),
        ensures
            final(self).wf(),
            r is Err <==> buys_of(old(self)@, holder) == u64::MAX,
            r is Err ==> failure(r) == Some(SafePumpError::Overflow) && final(self)@ == old(self)@,
            r is Ok ==> final(self)@ == after_buy(old(self)@, holder),
            final(self)@.len() <= MAX_BADGE_HOLDERS,
            final(self).bump_spec() == old(self).bump_spec(),
    {
        match self.position(&holder) {
            Some(i) => {
                let seen: u64 = self.entries[i].buy_count;
                if seen == u64::MAX {
                    return Err(SafePumpError::Overflow);
                }
                let ghost before = self.entries@;
                self.entries.set(i, BadgeEntry { holder, buy_count: seen + 1 });
                assert(distinct_holders(self.entries@)) by {
                    assert forall|a: int, b: int| 0 <= a < b < self.entries@.len() implies self.entries@[a].holder
                        != self.entries@[b].holder by {
                        assert(self.entries@[a].holder == before[a].holder);
                        assert(self.entries@[b].holder == before[b].holder);
                    }
                }
                Ok(())
            },
            None => {
                if self.entries.len() < MAX_BADGE_HOLDERS {
                    self.entries.push(BadgeEntry { holder, buy_count: 1 });
                }
                Ok(())
            },
        }
    }
}

/// A buy never takes the table over its capacity, nor makes a holder appear
/// twice.
pub proof fn lemma_after_buy_keeps_table(entries: Seq<BadgeEntry>, holder: Address)
    requires
        entries.len() <= MAX_BADGE_HOLDERS,
        distinct_holders(entries),
    ensures
        after_buy(entries, holder).len() <= MAX_BADGE_HOLDERS,
        distinct_holders(after_buy(entries, holder)),
        entries.len() <= after_buy(entries, holder).len(),
{
    let after = after_buy(entries, holder);
    if holds(entries, holder) {
        let i = slot_of(entries, holder);
        assert forall|a: int, b: int| 0 <= a < b < after.len() implies after[a].holder
            != after[b].holder by {
            assert(after[a].holder == entries[a].holder);
            assert(after[b].holder == entries[b].holder);
        }
    } else if entries.len() < MAX_BADGE_HOLDERS {
        assert forall|a: int, b: int| 0 <= a < b < after.len() implies after[a].holder
            != after[b].holder by {
            if b == entries.len() {
                assert(entries[a].holder != holder);
            }
        }
    }
}

} // verus!
