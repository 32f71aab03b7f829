//! State deltas: what a run of blocks changed, block by block, relative to the
//! state the run started from.
use vstd::prelude::*;
use crate::primitives::{Address, B256, U256};

verus! {

/// The state of an account.
#[derive(Clone, Copy, Debug, PartialEq, Eq)]
pub struct AccountInfo {
    pub balance: U256,
    pub nonce: u64,
    pub code_hash: B256,
}

/// One write to the state.
#[derive(Clone, Copy, Debug, PartialEq, Eq)]
pub enum StateChange {
    /// The account's new state; `None` where the account was destroyed.
    Account { address: Address, info: Option<AccountInfo> },
    /// The new value of one storage slot of an account.
    Storage { address: Address, slot: U256, value: U256 },
}

/// The outcome of one transaction.
#[derive(Clone, Copy, Debug, PartialEq, Eq)]
pub struct Receipt {
    pub tx_type: u8,
    pub success: bool,
    pub cumulative_gas_used: u64,
}

/// What executing one block wrote, in order, and its receipts.
#[derive(Clone, Debug)]
pub struct BlockChanges {
    pub changes: Vec<StateChange>,
    pub receipts: Vec<Receipt>,
}

/// The changes of one block, tagged with its number.
#[derive(Debug)]
pub struct BlockDelta {
    pub number: u64,
    pub changes: Vec<StateChange>,
    pub receipts: Vec<Receipt>,
}

/// The mathematical value of a [`BlockDelta`].
pub struct BlockDeltaView {
    pub number: u64,
    pub changes: Seq<StateChange>,
    pub receipts: Seq<Receipt>,
}

impl View for BlockDelta {
    type V = BlockDeltaView;

    open spec fn view(&self) -> BlockDeltaView {
        BlockDeltaView { number: self.number, changes: self.changes@, receipts: self.receipts@ }
    }
}

fn copy_changes(v: &Vec<StateChange>) -> (r: Vec<StateChange>)
    ensures
        r@ == v@,
{
    let mut r: Vec<StateChange> = Vec::new();
    let mut i: usize = 0;
    while i < v.len()
        invariant
            i <= v@.len(),
            r@ == v@.subrange(0, i as int),
        decreases v@.len() - i,
    {
        r.push(v[i]);
        i = i + 1;
        assert(r@ =~= v@.subrange(0, i as int));
    }
    assert(v@.subrange(0, v@.len() as int) =~= v@);
    r
}

fn copy_receipts(v: &Vec<Receipt>) -> (r: Vec<Receipt>)
    ensures
        r@ == v@,
{
    let mut r: Vec<Receipt> = Vec::new();
    let mut i: usize = 0;
    while i < v.len()
        invariant
            i <= v@.len(),
            r@ == v@.subrange(0, i as int),
        decreases v@.len() - i,
    {
        r.push(v[i]);
        i = i + 1;
        assert(r@ =~= v@.subrange(0, i as int));
    }
    assert(v@.subrange(0, v@.len() as int) =~= v@);
    r
}

impl BlockDelta {
    /// The delta of block `number`, from what executing it wrote.
    pub fn new(number: u64, outcome: BlockChanges) -> (r: BlockDelta)
        ensures
            r@.number == number,
            r@.changes == outcome.changes@,
            r@.receipts == outcome.receipts@,
    {
        BlockDelta { number, changes: outcome.changes, receipts: outcome.receipts }
    }

    /// A copy of the delta.
    pub fn duplicate(&self) -> (r: BlockDelta)
        ensures
            r@ == self@,
    {
        BlockDelta {
            number: self.number,
            changes: copy_changes(&self.changes),
            receipts: copy_receipts(&self.receipts),
        }
    }
}

/// The block numbers of `s` run up by one from entry to entry.
pub open spec fn contiguous(s: Seq<BlockDeltaView>) -> bool {
    forall|i: int| 0 < i < s.len() ==> #[trigger] s[i].number == s[i - 1].number + 1
}

/// `later` starts right after `earlier` ends, where both hold blocks.
pub open spec fn follows(earlier: Seq<BlockDeltaView>, later: Seq<BlockDeltaView>) -> bool {
    earlier.len() == 0 || later.len() == 0 || later[0].number == earlier.last().number + 1
}

/// How many leading entries of the contiguous `s` have a block number of at
/// most `n`.
pub open spec fn kept_len(s: Seq<BlockDeltaView>, n: u64) -> nat {
    if s.len() == 0 || n < s[0].number {
        0
    } else if n - s[0].number + 1 >= s.len() {
        s.len()
    } else {
        (n - s[0].number + 1) as nat
    }
}

/// `s` without the blocks after `n`.
pub open spec fn reverted(s: Seq<BlockDeltaView>, n: u64) -> Seq<BlockDeltaView> {
    s.subrange(0, kept_len(s, n) as int)
}

/// The blocks of `s` after `n`.
pub open spec fn after(s: Seq<BlockDeltaView>, n: u64) -> Seq<BlockDeltaView> {
    s.subrange(kept_len(s, n) as int, s.len() as int)
}

/// The changes of a run of blocks, block by block, in block order.
#[derive(Debug)]
pub struct PostState {
    blocks: Vec<BlockDelta>,
}

/// The values of a run of block deltas.
pub open spec fn delta_views(v: Seq<BlockDelta>) -> Seq<BlockDeltaView> {
    Seq::new(v.len(), |i: int| v[i]@)
}

impl View for PostState {
    type V = Seq<BlockDeltaView>;

    closed spec fn view(&self) -> Seq<BlockDeltaView> {
        delta_views(self.blocks@)
    }
}

impl PostState {
    /// The block numbers run up by one.
    pub open spec fn wf(&self) -> bool {
        contiguous(self@)
    }

    /// The empty delta, which covers no block.
    pub fn new() -> (r: PostState)
        ensures
            r@ == Seq::<BlockDeltaView>::empty(),
            r.wf(),
    {
        let r = PostState { blocks: Vec::new() };
        assert(r@ =~= Seq::<BlockDeltaView>::empty());
        r
    }

    /// The delta of the single block `delta`.
    pub fn from_block(delta: BlockDelta) -> (r: PostState)
        ensures
            r@ == seq![delta@],
            r.wf(),
    {
        let ghost v = delta@;
        let mut blocks: Vec<BlockDelta> = Vec::new();
        blocks.push(delta);
        let r = PostState { blocks };
        assert(r@ =~= seq![v]);
        r
    }

    /// The number of blocks covered.
    pub fn len(&self) -> (r: usize)
        ensures
            r == self@.len(),
    {
        self.blocks.len()
    }

    /// The number of the first block covered.
    pub fn first_block(&self) -> (r: Option<u64>)
        ensures
            r == if self@.len() == 0 {
                None::<u64>
            } else {
                Some(self@[0].number)
            },
    {
        if self.blocks.len() == 0 {
            None
        } else {
            Some(self.blocks[0].number)
        }
    }

    /// The number of the last block covered.
    pub fn last_block(&self) -> (r: Option<u64>)
        ensures
            r == if self@.len() == 0 {
                None::<u64>
            } else {
                Some(self@.last().number)
            },
    {
        let n = self.blocks.len();
        if n == 0 {
            None
        } else {
            Some(self.blocks[n - 1].number)
        }
    }

    /// The changes of one covered block.
    pub fn block(&self, i: usize) -> (r: &BlockDelta)
        requires
            i < self@.len(),
        ensures
            r@ == self@[i as int],
    {
        &self.blocks[i]
    }

    /// A copy of the delta.
    pub fn duplicate(&self) -> (r: PostState)
        ensures
            r@ == self@,
    {
        let mut blocks: Vec<BlockDelta> = Vec::new();
        let mut i: usize = 0;
        while i < self.blocks.len()
            invariant
                i <= self.blocks@.len(),
                blocks@.len() == i,
                forall|j: int| 0 <= j < i ==> #[trigger] blocks@[j]@ == self.blocks@[j]@,
            decreases self.blocks@.len() - i,
        {
            blocks.push(self.blocks[i].duplicate());
            i = i + 1;
        }
        let r = PostState { blocks };
        assert(r@ =~= self@);
        r
    }

    /// Appends the delta of the blocks right after this one's; for each
    /// account and slot the later write then supersedes the earlier.
    pub fn extend(&mut self, other: PostState)
        requires
            old(self).wf(),
            other.wf(),
            follows(old(self)@, other@),
        ensures
            final(self)@ == old(self)@ + other@,
            final(self).wf(),
    {
        let mut other = other;
        let ghost mine = self.blocks@;
        let ghost theirs = other.blocks@;
        self.blocks.append(&mut other.blocks);
        assert(self.blocks@ == mine + theirs);
        assert(delta_views(mine + theirs) =~= delta_views(mine) + delta_views(theirs));
    }

    /// Drops the changes of every block after `n`. What remains is exactly
    /// the delta of the blocks up to `n`.
    pub fn revert_to(&mut self, n: u64)
        requires
            old(self).wf(),
        ensures
            final(self)@ == reverted(old(self)@, n),
            final(self).wf(),
    {
        let len = self.blocks.len();
        if len == 0 {
            return;
        }
        let first = self.blocks[0].number;
        let keep: usize = if n < first {
            0
        } else if n - first >= (len - 1) as u64 {
            len
        } else {
            (n - first + 1) as usize
        };
        self.blocks.truncate(keep);
        assert(self@ =~= reverted(old(self)@, n));
    }
}

impl Default for PostState {
    fn default() -> (r: PostState)
        ensures
            r@ == Seq::<BlockDeltaView>::empty(),
    {
        PostState::new()
    }
}

/// The last write to the account at `address` among `changes`: `Some` of
/// its new state, or `None` where there is no such write.
pub open spec fn account_write(changes: Seq<StateChange>, address: Seq<u8>) -> Option<Option<AccountInfo>>
    decreases changes.len(),
{
    if changes.len() == 0 {
        None
    } else {
        match changes.last() {
            StateChange::Account { address: a, info } => if a@ == address {
                Some(info)
            } else {
                account_write(changes.drop_last(), address)
            },
            _ => account_write(changes.drop_last(), address),
        }
    }
}

/// The last write to one storage slot among `changes`.
pub open spec fn storage_write(changes: Seq<StateChange>, address: Seq<u8>, slot: U256) -> Option<U256>
    decreases changes.len(),
{
    if changes.len() == 0 {
        None
    } else {
        match changes.last() {
            StateChange::Storage { address: a, slot: k, value } => if a@ == address && k == slot {
                Some(value)
            } else {
                storage_write(changes.drop_last(), address, slot)
            },
            _ => storage_write(changes.drop_last(), address, slot),
        }
    }
}

/// The account state that a run of blocks leaves at `address`: the last
/// write of the last block that writes it.
pub open spec fn account_after(blocks: Seq<BlockDeltaView>, address: Seq<u8>) -> Option<Option<AccountInfo>>
    decreases blocks.len(),
{
    if blocks.len() == 0 {
        None
    } else {
        match account_write(blocks.last().changes, address) {
            Some(info) => Some(info),
            None => account_after(blocks.drop_last(), address),
        }
    }
}

/// The value that a run of blocks leaves in one storage slot.
pub open spec fn storage_after(blocks: Seq<BlockDeltaView>, address: Seq<u8>, slot: U256) -> Option<U256>
    decreases blocks.len(),
{
    if blocks.len() == 0 {
        None
    } else {
        match storage_write(blocks.last().changes, address, slot) {
            Some(v) => Some(v),
            None => storage_after(blocks.drop_last(), address, slot),
        }
    }
}

/// The receipts of a run of blocks, block after block.
pub open spec fn receipts_of(blocks: Seq<BlockDeltaView>) -> Seq<Receipt>
    decreases blocks.len(),
{
    if blocks.len() == 0 {
        Seq::empty()
    } else {
        receipts_of(blocks.drop_last()) + blocks.last().receipts
    }
}

/// Law: the receipts of two runs of blocks, one after the other, are those of
/// the first followed by those of the second.
pub proof fn lemma_receipts_concatenate(a: Seq<BlockDeltaView>, b: Seq<BlockDeltaView>)
    ensures
        receipts_of(a + b) == receipts_of(a) + receipts_of(b),
    decreases b.len(),
{
    if b.len() == 0 {
        assert(a + b =~= a);
        assert(receipts_of(a) + receipts_of(b) =~= receipts_of(a));
    } else {
        assert((a + b).drop_last() =~= a + b.drop_last());
        lemma_receipts_concatenate(a, b.drop_last());
        assert(receipts_of(a + b) =~= receipts_of(a) + receipts_of(b));
    }
}

fn last_account_write(changes: &Vec<StateChange>, address: &Address) -> (r: Option<Option<AccountInfo>>)
    ensures
        r == account_write(changes@, address@),
{
    let mut i: usize = changes.len();
    assert(changes@.subrange(0, i as int) =~= changes@);
    while i > 0
        invariant
            i <= changes@.len(),
            account_write(changes@.subrange(0, i as int), address@) == account_write(changes@, address@),
        decreases i,
    {
        assert(changes@.subrange(0, i as int).drop_last() =~= changes@.subrange(0, i - 1));
        i = i - 1;
        match &changes[i] {
            StateChange::Account { address: a, info } => {
                if a.same_as(address) {
                    return Some(*info);
                }
            },
            _ => {},
        }
    }
    None
}

fn last_storage_write(changes: &Vec<StateChange>, address: &Address, slot: &U256) -> (r: Option<U256>)
    ensures
        r == storage_write(changes@, address@, *slot),
{
    let mut i: usize = changes.len();
    assert(changes@.subrange(0, i as int) =~= changes@);
    while i > 0
        invariant
            i <= changes@.len(),
            storage_write(changes@.subrange(0, i as int), address@, *slot) == storage_write(
                changes@,
                address@,
                *slot,
            ),
        decreases i,
    {
        assert(changes@.subrange(0, i as int).drop_last() =~= changes@.subrange(0, i - 1));
        i = i - 1;
        match &changes[i] {
            StateChange::Storage { address: a, slot: k, value } => {
                if a.same_as(address) && k.hi == slot.hi && k.lo == slot.lo {
                    return Some(*value);
                }
            },
            _ => {},
        }
    }
    None
}

impl PostState {
    /// The receipts of the covered blocks, in block order.
    pub fn receipts(&self) -> (r: Vec<Receipt>)
        ensures
            r@ == receipts_of(self@),
    {
        let mut r: Vec<Receipt> = Vec::new();
        let mut i: usize = 0;
        while i < self.blocks.len()
            invariant
                i <= self@.len(),
                self@.len() == self.blocks@.len(),
                r@ == receipts_of(self@.subrange(0, i as int)),
            decreases self@.len() - i,
        {
            let mut next = copy_receipts(&self.blocks[i].receipts);
            r.append(&mut next);
            assert(self@.subrange(0, i + 1).drop_last() =~= self@.subrange(0, i as int));
            i = i + 1;
        }
        assert(self@.subrange(0, self@.len() as int) =~= self@);
        r
    }

    /// The state that the covered blocks leave the account at `address` in,
    /// the later write winning; `None` where no block writes it.
    pub fn account(&self, address: &Address) -> (r: Option<Option<AccountInfo>>)
        ensures
            r == account_after(self@, address@),
    {
        let mut i: usize = self.blocks.len();
        assert(self@.subrange(0, i as int) =~= self@);
        while i > 0
            invariant
                i <= self@.len(),
                self@.len() == self.blocks@.len(),
                account_after(self@.subrange(0, i as int), address@) == account_after(self@, address@),
            decreases i,
        {
            assert(self@.subrange(0, i as int).drop_last() =~= self@.subrange(0, i - 1));
            i = i - 1;
            match last_account_write(&self.blocks[i].changes, address) {
                Some(info) => {
                    return Some(info);
                },
                None => {},
            }
        }
        None
    }

    /// The value that the covered blocks leave in one storage slot, the
    /// later write winning; `None` where no block writes it.
    pub fn storage(&self, address: &Address, slot: &U256) -> (r: Option<U256>)
        ensures
            r == storage_after(self@, address@, *slot),
    {
        let mut i: usize = self.blocks.len();
        assert(self@.subrange(0, i as int) =~= self@);
        while i > 0
            invariant
                i <= self@.len(),
                self@.len() == self.blocks@.len(),
                storage_after(self@.subrange(0, i as int), address@, *slot) == storage_after(
                    self@,
                    address@,
                    *slot,
                ),
            decreases i,
        {
            assert(self@.subrange(0, i as int).drop_last() =~= self@.subrange(0, i - 1));
            i = i - 1;
            match last_storage_write(&self.blocks[i].changes, address, slot) {
                Some(v) => {
                    return Some(v);
                },
                None => {},
            }
        }
        None
    }
}

/// Law: reverting a delta to block `k` and extending the result by the blocks
/// after `k` gives the delta back, block for block; so a delta rebuilt on a
/// retained prefix equals one built over all the blocks directly.
pub proof fn lemma_revert_then_extend(full: Seq<BlockDeltaView>, k: u64)
    requires
        contiguous(full),
    ensures
        contiguous(reverted(full, k)),
        contiguous(after(full, k)),
        follows(reverted(full, k), after(full, k)),
        reverted(full, k) + after(full, k) == full,
{
    let kept = kept_len(full, k) as int;
    let a = reverted(full, k);
    let b = after(full, k);
    assert(a + b =~= full);
    assert forall|i: int| 0 < i < b.len() implies #[trigger] b[i].number == b[i - 1].number + 1 by {
        assert(b[i] == full[kept + i]);
        assert(b[i - 1] == full[kept + i - 1]);
    }
    if a.len() > 0 && b.len() > 0 {
        assert(b[0] == full[kept]);
        assert(a.last() == full[kept - 1]);
    }
}

} // verus!
