//! The claim ledger: which identity has claimed in which stage, and how
//! often each identity has claimed in all.

use vstd::prelude::*;

verus! {

/// One successful claim: the identity and the stage it claimed in.
#[derive(Clone, Debug, PartialEq, Eq)]
pub struct ClaimRecord {
    pub address: String,
    pub stage: u64,
}

/// How often one identity has claimed.
#[derive(Clone, Debug, PartialEq, Eq)]
pub struct ClaimCount {
    pub address: String,
    pub count: u32,
}

/// The ledger. Records are only ever added, counts only ever grow.
#[derive(Clone, Debug, PartialEq, Eq)]
pub struct ClaimLedger {
    pub records: Vec<ClaimRecord>,
    pub counts: Vec<ClaimCount>,
}

/// What a ledger holds: the set of (identity, stage) pairs that have
/// claimed, and the number of claims of every identity (0 for one that
/// never claimed).
pub struct LedgerView {
    pub claimed: Set<(Seq<char>, u64)>,
    pub counts: Map<Seq<char>, nat>,
}

/// The count that the first entry for `address` holds, or 0.
pub open spec fn count_in(entries: Seq<ClaimCount>, address: Seq<char>) -> nat
    decreases entries.len(),
{
    if entries.len() == 0 {
        0
    } else if entries[0].address@ == address {
        entries[0].count as nat
    } else {
        count_in(entries.drop_first(), address)
    }
}

/// Whether some record is for `address` in `stage`.
pub open spec fn recorded(records: Seq<ClaimRecord>, address: Seq<char>, stage: u64) -> bool {
    exists|i: int|
        0 <= i < records.len() && (#[trigger] records[i]).address@ == address && records[i].stage
            == stage
}

/// One more claim, up to the largest count that can be held.
pub open spec fn next_count(count: nat) -> nat {
    if count < u32::MAX {
        count + 1
    } else {
        count
    }
}

impl LedgerView {
    /// The ledger without any claim.
    pub open spec fn empty() -> LedgerView {
        LedgerView { claimed: Set::empty(), counts: Map::total(|a: Seq<char>| 0nat) }
    }

    /// Whether `address` has claimed in `stage`.
    pub open spec fn has_claimed(self, address: Seq<char>, stage: u64) -> bool {
        self.claimed.contains((address, stage))
    }

    /// The number of claims of `address`.
    pub open spec fn claim_count(self, address: Seq<char>) -> nat {
        self.counts[address]
    }

    /// The ledger after `address` claimed in `stage`.
    pub open spec fn mark_claimed(self, address: Seq<char>, stage: u64) -> LedgerView {
        LedgerView { claimed: self.claimed.insert((address, stage)), counts: self.counts }
    }

    /// The ledger after one more claim of `address` was counted.
    pub open spec fn increment_claim_count(self, address: Seq<char>) -> LedgerView {
        LedgerView {
            claimed: self.claimed,
            counts: self.counts.insert(address, next_count(self.counts[address])),
        }
    }
}

impl View for ClaimLedger {
    type V = LedgerView;

    open spec fn view(&self) -> LedgerView {
        LedgerView {
            claimed: Set::new(|k: (Seq<char>, u64)| recorded(self.records@, k.0, k.1)),
            counts: Map::total(|a: Seq<char>| count_in(self.counts@, a)),
        }
    }
}

/// Counts before position `at` do not matter for an address that none of
/// them is for.
proof fn lemma_count_in_skip(entries: Seq<ClaimCount>, address: Seq<char>, at: int)
    requires
        0 <= at <= entries.len(),
        forall|j: int| 0 <= j < at ==> (#[trigger] entries[j]).address@ != address,
    ensures
        count_in(entries, address) == count_in(entries.skip(at), address),
    decreases at,
{
    if at == 0 {
        assert(entries.skip(0) =~= entries);
    } else {
        assert(entries[0].address@ != address);
        let rest = entries.drop_first();
        assert forall|j: int| 0 <= j < at - 1 implies (#[trigger] rest[j]).address@ != address by {
            assert(rest[j] == entries[j + 1]);
        }
        lemma_count_in_skip(rest, address, at - 1);
        assert(rest.skip(at - 1) =~= entries.skip(at));
    }
}

/// Replacing the first entry for an address changes that address's count
/// and no other.
proof fn lemma_count_in_update(
    entries: Seq<ClaimCount>,
    at: int,
    entry: ClaimCount,
    address: Seq<char>,
)
    requires
        0 <= at < entries.len(),
        entry.address@ == entries[at].address@,
        forall|j: int| 0 <= j < at ==> (#[trigger] entries[j]).address@ != entry.address@,
    ensures
        count_in(entries.update(at, entry), address) == if address == entry.address@ {
            entry.count as nat
        } else {
            count_in(entries, address)
        },
    decreases at,
{
    let updated = entries.update(at, entry);
    if at == 0 {
        assert(updated.drop_first() =~= entries.drop_first());
    } else {
        assert(updated[0] == entries[0]);
        assert(updated.drop_first() =~= entries.drop_first().update(at - 1, entry));
        let rest = entries.drop_first();
        assert forall|j: int| 0 <= j < at - 1 implies (#[trigger] rest[j]).address@
            != entry.address@ by {
            assert(rest[j] == entries[j + 1]);
        }
        lemma_count_in_update(rest, at - 1, entry, address);
    }
}

/// Adding an entry for an address that has none sets that address's count
/// and no other.
proof fn lemma_count_in_push(entries: Seq<ClaimCount>, entry: ClaimCount, address: Seq<char>)
    requires
        forall|j: int| 0 <= j < entries.len() ==> (#[trigger] entries[j]).address@ != entry.address@,
    ensures
        count_in(entries.push(entry), address) == if address == entry.address@ {
            entry.count as nat
        } else {
            count_in(entries, address)
        },
        count_in(entries, entry.address@) == 0,
    decreases entries.len(),
{
    let longer = entries.push(entry);
    if entries.len() == 0 {
        assert(longer.drop_first() =~= entries);
    } else {
        assert(longer[0] == entries[0]);
        assert(entries[0].address@ != entry.address@);
        assert(longer.drop_first() =~= entries.drop_first().push(entry));
        let rest = entries.drop_first();
        assert forall|j: int| 0 <= j < rest.len() implies (#[trigger] rest[j]).address@
            != entry.address@ by {
            assert(rest[j] == entries[j + 1]);
        }
        lemma_count_in_push(rest, entry, address);
    }
}

impl ClaimLedger {
    /// A ledger without any claim.
    pub fn new() -> (ledger: ClaimLedger)
        ensures
            ledger@ == LedgerView::empty(),
    {
        let ledger = ClaimLedger { records: Vec::new(), counts: Vec::new() };
        assert(ledger@.claimed =~= LedgerView::empty().claimed);
        assert(ledger@.counts =~= LedgerView::empty().counts);
        ledger
    }

    /// Whether `address` has claimed in `stage`.
    pub fn has_claimed(&self, address: &String, stage: u64) -> (claimed: bool)
        ensures
            claimed == self@.has_claimed(address@, stage),
    {
        let mut i: usize = 0;
        while i < self.records.len()
            invariant
                i <= self.records.len(),
                forall|j: int|
                    0 <= j < i ==> !((#[trigger] self.records@[j]).address@ == address@
                        && self.records@[j].stage == stage),
            decreases self.records.len() - i,
        {
            if self.records[i].stage == stage && self.records[i].address == *address {
                return true;
            }
            i += 1;
        }
        false
    }

    /// Records that `address` has claimed in `stage`. Whether it had
    /// claimed before is for the caller to ask.
    pub fn mark_claimed(&mut self, address: &String, stage: u64)
        ensures
            final(self)@ == old(self)@.mark_claimed(address@, stage),
    {
        let ghost before = self.records@;
        let record = ClaimRecord { address: address.clone(), stage };
        self.records.push(record);
        proof {
            let after = self.records@;
            let wanted = old(self)@.mark_claimed(address@, stage);
            assert forall|k: (Seq<char>, u64)| self@.claimed.contains(k)
                == wanted.claimed.contains(k) by {
                if recorded(after, k.0, k.1) {
                    let i = choose|i: int|
                        0 <= i < after.len() && (#[trigger] after[i]).address@ == k.0
                            && after[i].stage == k.1;
                    if i < before.len() {
                        assert(before[i] == after[i]);
                    }
                }
                if recorded(before, k.0, k.1) {
                    let i = choose|i: int|
                        0 <= i < before.len() && (#[trigger] before[i]).address@ == k.0
                            && before[i].stage == k.1;
                    assert(after[i] == before[i]);
                }
                if k == (address@, stage) {
                    assert(after[before.len() as int].address@ == address@);
                }
            }
            assert(self@.claimed =~= wanted.claimed);
            assert(self@.counts =~= wanted.counts);
        }
    }

    /// The number of claims of `address`; 0 if it never claimed.
    pub fn claim_count(&self, address: &String) -> (count: u32)
        ensures
            count == self@.claim_count(address@),
    {
        let mut i: usize = 0;
        while i < self.counts.len()
            invariant
                i <= self.counts.len(),
                forall|j: int| 0 <= j < i ==> (#[trigger] self.counts@[j]).address@ != address@,
            decreases self.counts.len() - i,
        {
            if self.counts[i].address == *address {
                proof {
                    lemma_count_in_skip(self.counts@, address@, i as int);
                }
                return self.counts[i].count;
            }
            i += 1;
        }
        proof {
            lemma_count_in_skip(self.counts@, address@, i as int);
        }
        0
    }

    /// Counts one more claim of `address`. The count stops growing at the
    /// largest value it can hold.
    pub fn increment_claim_count(&mut self, address: &String)
        ensures
            final(self)@ == old(self)@.increment_claim_count(address@),
    {
        let ghost before = self.counts@;
        let ghost wanted = old(self)@.increment_claim_count(address@);
        let mut i: usize = 0;
        while i < self.counts.len()
            invariant
                i <= self.counts.len(),
                self.counts@ == before,
                before == old(self).counts@,
                self.records == old(self).records,
                wanted == old(self)@.increment_claim_count(address@),
                forall|j: int| 0 <= j < i ==> (#[trigger] self.counts@[j]).address@ != address@,
            decreases self.counts.len() - i,
        {
            if self.counts[i].address == *address {
                let count = self.counts[i].count;
                let bumped: u32 = if count < u32::MAX {
                    count + 1
                } else {
                    count
                };
                let entry = ClaimCount { address: address.clone(), count: bumped };
                proof {
                    lemma_count_in_skip(before, address@, i as int);
                    assert forall|a: Seq<char>| count_in(before.update(i as int, entry), a)
                        == wanted.counts[a] by {
                        lemma_count_in_update(before, i as int, entry, a);
                    }
                }
                self.counts.set(i, entry);
                assert(self@.counts =~= wanted.counts);
                assert(self@.claimed =~= wanted.claimed);
                return ;
            }
            i += 1;
        }
        let entry = ClaimCount { address: address.clone(), count: 1 };
        proof {
            assert forall|a: Seq<char>| count_in(before.push(entry), a) == wanted.counts[a] by {
                lemma_count_in_push(before, entry, a);
            }
        }
        self.counts.push(entry);
        assert(self@.counts =~= wanted.counts);
        assert(self@.claimed =~= wanted.claimed);
    }
}

} // verus!
