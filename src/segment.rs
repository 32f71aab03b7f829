//! Chain segments: runs of validated, executed blocks off the canonical chain,
//! each with the state delta of its blocks, and the pipeline that validates
//! and executes a block before it joins one.
use vstd::prelude::*;
use std::collections::BTreeMap;
use crate::block::{BodyRoots, SealedBlockWithSenders, SealedHeader};
use crate::chain_spec::ChainSpec;
use crate::block::Header;
use crate::primitives::{B256, U256};
use crate::state::{BlockChanges, BlockDelta, BlockDeltaView, PostState, reverted};
use crate::validation::{ConsensusError, validate_block, validation_error};

verus! {

/// The canonical block a segment branches off.
#[derive(Clone, Copy, Debug, PartialEq, Eq)]
pub struct ForkBlock {
    pub number: u64,
    pub hash: B256,
}

/// Why a block could not be executed.
#[derive(Clone, Debug, PartialEq, Eq)]
pub enum ExecutionError {
    /// The parent of the block is not in the segment it was to fork from.
    BlockNumberNotFoundInChain { block_number: u64 },
    /// The state at the canonical fork block could not be had.
    StateUnavailable { block_number: u64 },
    /// The execution engine rejected the block.
    Rejected { reason: String },
}

/// Why a block was not added.
#[derive(Clone, Debug, PartialEq, Eq)]
pub enum Error {
    Consensus(ConsensusError),
    Execution(ExecutionError),
}

/// The execution engine. It runs a block's transactions on the canonical
/// state at `canonical_fork`, overlaid with the segment's own changes in
/// `sidechain_state`, resolving block hashes from the two maps, checks the
/// receipts, and returns what the block wrote.
pub trait BlockExecutor {
    fn execute_and_verify_receipt(
        &self,
        block: &SealedBlockWithSenders,
        canonical_fork: ForkBlock,
        sidechain_state: &PostState,
        sidechain_block_hashes: &BTreeMap<u64, B256>,
        canonical_block_hashes: &BTreeMap<u64, B256>,
    ) -> Result<BlockChanges, ExecutionError>;
}

/// What the pipeline works with: the chain specification and the execution
/// engine.
pub struct TreeExternals<E> {
    pub chain_spec: ChainSpec,
    pub executor: E,
}

/// Relies on `std::time::SystemTime::now`: the seconds since the Unix epoch,
/// zero where the clock reads earlier than that.
#[verifier::external_body]
fn present_timestamp() -> (r: u64) {
    std::time::SystemTime::now().duration_since(std::time::UNIX_EPOCH).map_or(0, |d| d.as_secs())
}

/// A run of blocks with consecutive numbers and the state delta that
/// executing them produced.
#[derive(Debug)]
pub struct ChainSegment {
    state: PostState,
    blocks: Vec<SealedBlockWithSenders>,
}

/// The blocks of `s` have consecutive numbers.
pub open spec fn consecutive(s: Seq<SealedBlockWithSenders>) -> bool {
    forall|i: int| 0 <= i < s.len() ==> #[trigger] s[i].number() == s[0].number() + i
}

impl ChainSegment {
    pub closed spec fn spec_blocks(&self) -> Seq<SealedBlockWithSenders> {
        self.blocks@
    }

    pub closed spec fn spec_state(&self) -> Seq<BlockDeltaView> {
        self.state@
    }

    pub open spec fn spec_tip(&self) -> SealedBlockWithSenders {
        self.spec_blocks().last()
    }

    /// At least one block, numbered consecutively; the delta covers
    /// consecutive blocks from no later than the first up to the tip.
    pub open spec fn wf(&self) -> bool {
        &&& self.spec_blocks().len() >= 1
        &&& consecutive(self.spec_blocks())
        &&& crate::state::contiguous(self.spec_state())
        &&& self.spec_state().len() >= 1
        &&& self.spec_state().last().number == self.spec_tip().number()
        &&& self.spec_state()[0].number <= self.spec_blocks()[0].number()
    }

    /// The segment of the one block `block`, whose execution gave `delta`.
    pub fn new(block: SealedBlockWithSenders, delta: BlockDelta) -> (r: ChainSegment)
        requires
            delta@.number == block.number(),
        ensures
            r.wf(),
            r.spec_blocks() == seq![block],
            r.spec_state() == seq![delta@],
    {
        let ghost b = block;
        let mut blocks: Vec<SealedBlockWithSenders> = Vec::new();
        blocks.push(block);
        let r = ChainSegment { state: PostState::from_block(delta), blocks };
        assert(r.blocks@ =~= seq![b]);
        r
    }

    pub fn blocks(&self) -> (r: &Vec<SealedBlockWithSenders>)
        ensures
            r@ == self.spec_blocks(),
    {
        &self.blocks
    }

    pub fn state(&self) -> (r: &PostState)
        ensures
            r@ == self.spec_state(),
    {
        &self.state
    }

    /// The number of blocks.
    pub fn len(&self) -> (r: usize)
        ensures
            r == self.spec_blocks().len(),
    {
        self.blocks.len()
    }

    /// The last block.
    pub fn tip(&self) -> (r: &SealedBlockWithSenders)
        requires
            self.wf(),
        ensures
            *r == self.spec_tip(),
    {
        &self.blocks[self.blocks.len() - 1]
    }

    /// The block numbered `n`, where the segment holds one.
    pub open spec fn spec_block_at(&self, n: u64) -> Option<SealedBlockWithSenders> {
        let blocks = self.spec_blocks();
        if blocks.len() > 0 && blocks[0].number() <= n && n - blocks[0].number() < blocks.len() {
            Some(blocks[n - blocks[0].number()])
        } else {
            None
        }
    }

    /// The block numbered `number`, where the segment holds it.
    pub fn block_by_number(&self, number: u64) -> (r: Option<&SealedBlockWithSenders>)
        requires
            self.wf(),
        ensures
            r is None <==> self.spec_block_at(number) is None,
            r matches Some(b) ==> self.spec_block_at(number) == Some(*b) && b.number() == number,
    {
        let first = self.blocks[0].block.header.header.number;
        let n = self.blocks.len();
        if number < first || number - first >= n as u64 {
            None
        } else {
            let i = (number - first) as usize;
            assert(self.spec_blocks()[i as int].number() == first + i);
            Some(&self.blocks[i])
        }
    }
}

/// A chain segment that blocks can be appended to and forked from.
#[derive(Debug)]
pub struct AppendableChain {
    pub chain: ChainSegment,
}

/// What validating `block` on `parent` and executing it may give, with the
/// block's cumulative difficulty at `total_difficulty` and the clock at `now`:
/// the first broken rule, else the engine's error or a delta numbered as the
/// block.
pub open spec fn execution_outcome(
    spec: ChainSpec,
    block: SealedBlockWithSenders,
    roots: BodyRoots,
    parent: Header,
    total_difficulty: U256,
    now: u64,
    r: Result<BlockDelta, Error>,
) -> bool {
    match validation_error(spec, block.block, roots, parent, total_difficulty, now) {
        Some(e) => r == Err::<BlockDelta, Error>(Error::Consensus(e)),
        None => match r {
            Ok(d) => d@.number == block.number(),
            Err(Error::Execution(_)) => true,
            Err(Error::Consensus(_)) => false,
        },
    }
}

/// What forking a new segment of `block` off the canonical `parent` may give:
/// the first broken rule, else the engine's error or the segment of that
/// block alone with a one-entry delta.
pub open spec fn canonical_fork_outcome(
    spec: ChainSpec,
    block: SealedBlockWithSenders,
    roots: BodyRoots,
    parent: Header,
    total_difficulty: U256,
    now: u64,
    r: Result<AppendableChain, Error>,
) -> bool {
    match validation_error(spec, block.block, roots, parent, total_difficulty, now) {
        Some(e) => r == Err::<AppendableChain, Error>(Error::Consensus(e)),
        None => match r {
            Ok(c) => c.wf() && c.chain.spec_blocks() == seq![block] && c.chain.spec_state().len()
                == 1 && c.chain.spec_state()[0].number == block.number(),
            Err(Error::Execution(_)) => true,
            Err(Error::Consensus(_)) => false,
        },
    }
}

/// What forking a new segment of `block` off `source` may give: an error
/// where the parent is not in `source`, else the first broken rule, else the
/// engine's error or the segment of that block alone, whose delta is that of
/// `source` reverted to the parent and extended by one entry for the block.
pub open spec fn chain_fork_outcome(
    source: AppendableChain,
    spec: ChainSpec,
    block: SealedBlockWithSenders,
    roots: BodyRoots,
    total_difficulty: U256,
    now: u64,
    r: Result<AppendableChain, Error>,
) -> bool {
    let parent_number = parent_number_of(block.number());
    match source.chain.spec_block_at(parent_number) {
        None => r == Err::<AppendableChain, Error>(
            Error::Execution(
                ExecutionError::BlockNumberNotFoundInChain { block_number: parent_number },
            ),
        ),
        Some(parent) => match validation_error(
            spec,
            block.block,
            roots,
            parent.block.header.header,
            total_difficulty,
            now,
        ) {
            Some(e) => r == Err::<AppendableChain, Error>(Error::Consensus(e)),
            None => match r {
                Ok(c) => c.wf() && c.chain.spec_blocks() == seq![block] && c.chain.spec_state()
                    == reverted(source.chain.spec_state(), parent_number).push(
                    c.chain.spec_state().last(),
                ) && c.chain.spec_state().last().number == block.number(),
                Err(Error::Execution(_)) => true,
                Err(Error::Consensus(_)) => false,
            },
        },
    }
}

/// What appending `block` to `old` may leave, as `new`: on the first broken
/// rule or the engine's error, `old` unchanged; on success, `old` with the
/// block as its new tip, numbered one past the old one, and its delta
/// extended by one entry for it.
pub open spec fn append_outcome(
    old: AppendableChain,
    new: AppendableChain,
    spec: ChainSpec,
    block: SealedBlockWithSenders,
    roots: BodyRoots,
    total_difficulty: U256,
    now: u64,
    r: Result<(), Error>,
) -> bool {
    &&& new.wf()
    &&& match validation_error(
        spec,
        block.block,
        roots,
        old.chain.spec_tip().block.header.header,
        total_difficulty,
        now,
    ) {
        Some(e) => r == Err::<(), Error>(Error::Consensus(e)) && new == old,
        None => match r {
            Ok(()) => {
                &&& new.chain.spec_blocks() == old.chain.spec_blocks().push(block)
                &&& new.chain.spec_blocks().len() == old.chain.spec_blocks().len() + 1
                &&& new.chain.spec_state() == old.chain.spec_state().push(
                    new.chain.spec_state().last(),
                )
                &&& new.chain.spec_state().last().number == block.number()
                &&& block.number() == old.chain.spec_tip().number() + 1
            },
            Err(Error::Execution(_)) => new == old,
            Err(Error::Consensus(_)) => false,
        },
    }
}

impl AppendableChain {
    pub open spec fn wf(&self) -> bool {
        self.chain.wf()
    }

    /// Wraps a segment.
    pub fn new(chain: ChainSegment) -> (r: AppendableChain)
        ensures
            r.chain == chain,
    {
        AppendableChain { chain }
    }

    /// The segment.
    pub fn into_inner(self) -> (r: ChainSegment)
        ensures
            r == self.chain,
    {
        self.chain
    }

    /// Validates `block` on `parent_block`, with its cumulative difficulty at
    /// `total_difficulty` and the clock at `present_timestamp`, then executes it
    /// on `state`. A broken consensus rule is reported without executing;
    /// after that, the engine decides.
    pub fn validate_and_execute_at<E: BlockExecutor>(
        block: &SealedBlockWithSenders,
        roots: &BodyRoots,
        total_difficulty: U256,
        parent_block: &SealedHeader,
        canonical_fork: ForkBlock,
        state: &PostState,
        sidechain_block_hashes: &BTreeMap<u64, B256>,
        canonical_block_hashes: &BTreeMap<u64, B256>,
        externals: &TreeExternals<E>,
        present_timestamp: u64,
    ) -> (r: Result<BlockDelta, Error>)
        ensures
            execution_outcome(
                externals.chain_spec,
                *block,
                *roots,
                parent_block.header,
                total_difficulty,
                present_timestamp,
                r,
            ),
    {
        match validate_block(
            &externals.chain_spec,
            &block.block,
            roots,
            parent_block,
            total_difficulty,
            present_timestamp,
        ) {
            Err(e) => {
                return Err(Error::Consensus(e));
            },
            Ok(()) => {},
        }
        match externals.executor.execute_and_verify_receipt(
            block,
            canonical_fork,
            state,
            sidechain_block_hashes,
            canonical_block_hashes,
        ) {
            Ok(outcome) => Ok(BlockDelta::new(block.block.header.header.number, outcome)),
            Err(e) => Err(Error::Execution(e)),
        }
    }

    /// Like [`Self::validate_and_execute_at`], with the clock read now: the
    /// same holds for the reading taken.
    pub fn validate_and_execute<E: BlockExecutor>(
        block: &SealedBlockWithSenders,
        roots: &BodyRoots,
        total_difficulty: U256,
        parent_block: &SealedHeader,
        canonical_fork: ForkBlock,
        state: &PostState,
        sidechain_block_hashes: &BTreeMap<u64, B256>,
        canonical_block_hashes: &BTreeMap<u64, B256>,
        externals: &TreeExternals<E>,
    ) -> (r: Result<BlockDelta, Error>)
        ensures
            exists|now: u64|
                execution_outcome(
                    externals.chain_spec,
                    *block,
                    *roots,
                    parent_block.header,
                    total_difficulty,
                    now,
                    r,
                ),
    {
        let now = present_timestamp();
        Self::validate_and_execute_at(
            block,
            roots,
            total_difficulty,
            parent_block,
            canonical_fork,
            state,
            sidechain_block_hashes,
            canonical_block_hashes,
            externals,
            now,
        )
    }

    /// Validates and executes `block` on the canonical block `parent_header`,
    /// from an empty delta, with the clock at `present_timestamp`; on success
    /// the result is a new segment of that block alone.
    pub fn new_canonical_fork_at<E: BlockExecutor>(
        block: SealedBlockWithSenders,
        roots: &BodyRoots,
        total_difficulty: U256,
        parent_header: &SealedHeader,
        canonical_block_hashes: &BTreeMap<u64, B256>,
        canonical_fork: ForkBlock,
        externals: &TreeExternals<E>,
        present_timestamp: u64,
    ) -> (r: Result<AppendableChain, Error>)
        ensures
            canonical_fork_outcome(
                externals.chain_spec,
                block,
                *roots,
                parent_header.header,
                total_difficulty,
                present_timestamp,
                r,
            ),
    {
        let state = PostState::new();
        let empty: BTreeMap<u64, B256> = BTreeMap::new();
        let changeset = Self::validate_and_execute_at(
            &block,
            roots,
            total_difficulty,
            parent_header,
            canonical_fork,
            &state,
            &empty,
            canonical_block_hashes,
            externals,
            present_timestamp,
        )?;
        Ok(AppendableChain { chain: ChainSegment::new(block, changeset) })
    }

    /// Like [`Self::new_canonical_fork_at`], with the clock read now: the same
    /// holds for the reading taken.
    pub fn new_canonical_fork<E: BlockExecutor>(
        block: SealedBlockWithSenders,
        roots: &BodyRoots,
        total_difficulty: U256,
        parent_header: &SealedHeader,
        canonical_block_hashes: &BTreeMap<u64, B256>,
        canonical_fork: ForkBlock,
        externals: &TreeExternals<E>,
    ) -> (r: Result<AppendableChain, Error>)
        ensures
            exists|now: u64|
                canonical_fork_outcome(
                    externals.chain_spec,
                    block,
                    *roots,
                    parent_header.header,
                    total_difficulty,
                    now,
                    r,
                ),
    {
        let now = present_timestamp();
        Self::new_canonical_fork_at(
            block,
            roots,
            total_difficulty,
            parent_header,
            canonical_block_hashes,
            canonical_fork,
            externals,
            now,
        )
    }

    /// Forks a new segment off this one at the parent of `block`, with the
    /// clock at `present_timestamp`. The parent must be in this segment. The
    /// delta is copied, reverted to the parent, and extended by the block's
    /// execution; the new segment holds that block alone. `self` is only read.
    pub fn new_chain_fork_at<E: BlockExecutor>(
        &self,
        block: SealedBlockWithSenders,
        roots: &BodyRoots,
        total_difficulty: U256,
        side_chain_block_hashes: BTreeMap<u64, B256>,
        canonical_block_hashes: &BTreeMap<u64, B256>,
        canonical_fork: ForkBlock,
        externals: &TreeExternals<E>,
        present_timestamp: u64,
    ) -> (r: Result<AppendableChain, Error>)
        requires
            self.wf(),
        ensures
            chain_fork_outcome(
                *self,
                externals.chain_spec,
                block,
                *roots,
                total_difficulty,
                present_timestamp,
                r,
            ),
    {
        let parent_number = if block.block.header.header.number == 0 {
            u64::MAX
        } else {
            block.block.header.header.number - 1
        };
        let parent = match self.chain.block_by_number(parent_number) {
            Some(p) => p,
            None => {
                return Err(
                    Error::Execution(
                        ExecutionError::BlockNumberNotFoundInChain { block_number: parent_number },
                    ),
                );
            },
        };
        let mut state = self.chain.state.duplicate();
        state.revert_to(parent_number);
        let block_state = Self::validate_and_execute_at(
            &block,
            roots,
            total_difficulty,
            &parent.block.header,
            canonical_fork,
            &state,
            &side_chain_block_hashes,
            canonical_block_hashes,
            externals,
            present_timestamp,
        )?;
        let ghost reverted_state = state@;
        let ghost d = block_state@;
        proof {
            lemma_reverted_ends_at(&self.chain, parent_number);
        }
        state.extend(PostState::from_block(block_state));
        assert(state@ =~= reverted_state.push(d));
        let ghost b = block;
        let mut blocks: Vec<SealedBlockWithSenders> = Vec::new();
        blocks.push(block);
        let chain = ChainSegment { state, blocks };
        assert(chain.blocks@ =~= seq![b]);
        Ok(AppendableChain { chain })
    }

    /// Like [`Self::new_chain_fork_at`], with the clock read now: the same
    /// holds for the reading taken.
    pub fn new_chain_fork<E: BlockExecutor>(
        &self,
        block: SealedBlockWithSenders,
        roots: &BodyRoots,
        total_difficulty: U256,
        side_chain_block_hashes: BTreeMap<u64, B256>,
        canonical_block_hashes: &BTreeMap<u64, B256>,
        canonical_fork: ForkBlock,
        externals: &TreeExternals<E>,
    ) -> (r: Result<AppendableChain, Error>)
        requires
            self.wf(),
        ensures
            exists|now: u64|
                chain_fork_outcome(
                    *self,
                    externals.chain_spec,
                    block,
                    *roots,
                    total_difficulty,
                    now,
                    r,
                ),
    {
        let now = present_timestamp();
        self.new_chain_fork_at(
            block,
            roots,
            total_difficulty,
            side_chain_block_hashes,
            canonical_block_hashes,
            canonical_fork,
            externals,
            now,
        )
    }

    /// Validates and executes `block` on this segment's tip, with its
    /// cumulative difficulty at `total_difficulty` and the clock at
    /// `present_timestamp`, and only on success appends it and extends the
    /// delta. On failure the segment is left as it was.
    pub fn append_block_at<E: BlockExecutor>(
        &mut self,
        block: SealedBlockWithSenders,
        roots: &BodyRoots,
        total_difficulty: U256,
        side_chain_block_hashes: BTreeMap<u64, B256>,
        canonical_block_hashes: &BTreeMap<u64, B256>,
        canonical_fork: ForkBlock,
        externals: &TreeExternals<E>,
        present_timestamp: u64,
    ) -> (r: Result<(), Error>)
        requires
            old(self).wf(),
        ensures
            append_outcome(
                *old(self),
                *final(self),
                externals.chain_spec,
                block,
                *roots,
                total_difficulty,
                present_timestamp,
                r,
            ),
    {
        let parent = self.chain.tip();
        let block_state = Self::validate_and_execute_at(
            &block,
            roots,
            total_difficulty,
            &parent.block.header,
            canonical_fork,
            &self.chain.state,
            &side_chain_block_hashes,
            canonical_block_hashes,
            externals,
            present_timestamp,
        )?;
        let ghost old_state = self.chain.state@;
        let ghost d = block_state@;
        self.chain.state.extend(PostState::from_block(block_state));
        assert(self.chain.state@ =~= old_state.push(d));
        self.chain.blocks.push(block);
        Ok(())
    }

    /// Like [`Self::append_block_at`], with the clock read now: the same holds
    /// for the reading taken.
    pub fn append_block<E: BlockExecutor>(
        &mut self,
        block: SealedBlockWithSenders,
        roots: &BodyRoots,
        total_difficulty: U256,
        side_chain_block_hashes: BTreeMap<u64, B256>,
        canonical_block_hashes: &BTreeMap<u64, B256>,
        canonical_fork: ForkBlock,
        externals: &TreeExternals<E>,
    ) -> (r: Result<(), Error>)
        requires
            old(self).wf(),
        ensures
            exists|now: u64|
                append_outcome(
                    *old(self),
                    *final(self),
                    externals.chain_spec,
                    block,
                    *roots,
                    total_difficulty,
                    now,
                    r,
                ),
    {
        let now = present_timestamp();
        self.append_block_at(
            block,
            roots,
            total_difficulty,
            side_chain_block_hashes,
            canonical_block_hashes,
            canonical_fork,
            externals,
            now,
        )
    }
}

/// Law: forking a new segment at a segment's tip and appending to the segment
/// give the same delta, where the block's execution gives the same entry `d`:
/// reverting to the tip changes nothing.
pub proof fn lemma_fork_at_tip_matches_append(chain: ChainSegment, d: BlockDeltaView)
    requires
        chain.wf(),
    ensures
        reverted(chain.spec_state(), chain.spec_tip().number()).push(d) == chain.spec_state().push(
            d,
        ),
{
    let s = chain.spec_state();
    assert forall|i: int| 0 <= i < s.len() implies #[trigger] s[i].number == s[0].number + i by {
        lemma_contiguous_numbers(s, i);
    }
    assert(s[s.len() - 1].number == s[0].number + s.len() - 1);
    assert(reverted(s, chain.spec_tip().number()) =~= s);
}

/// The number of the parent of block `n`; below block zero it wraps.
pub open spec fn parent_number_of(n: u64) -> u64 {
    if n == 0 {
        u64::MAX
    } else {
        (n - 1) as u64
    }
}

/// Reverting a segment's delta to one of its blocks leaves a delta that ends
/// at that block.
proof fn lemma_reverted_ends_at(chain: &ChainSegment, n: u64)
    requires
        chain.wf(),
        chain.spec_block_at(n) is Some,
    ensures
        reverted(chain.spec_state(), n).len() >= 1,
        reverted(chain.spec_state(), n).last().number == n,
        reverted(chain.spec_state(), n)[0].number <= n,
{
    let s = chain.spec_state();
    let blocks = chain.spec_blocks();
    let first = s[0].number;
    assert(blocks[blocks.len() - 1].number() == blocks[0].number() + blocks.len() - 1);
    assert forall|i: int| 0 <= i < s.len() implies #[trigger] s[i].number == first + i by {
        lemma_contiguous_numbers(s, i);
    }
    assert(s[s.len() - 1].number == first + s.len() - 1);
}

proof fn lemma_contiguous_numbers(s: Seq<BlockDeltaView>, i: int)
    requires
        crate::state::contiguous(s),
        0 <= i < s.len(),
    ensures
        s[i].number == s[0].number + i,
    decreases i,
{
    if i > 0 {
        lemma_contiguous_numbers(s, i - 1);
    }
}

} // verus!
