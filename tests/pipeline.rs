use std::collections::BTreeMap;
use symphony_chain::block::{
    calculate_next_block_base_fee, empty_ommer_root, BodyRoots, Header, SealedBlock,
    SealedBlockWithSenders, SealedHeader, Withdrawal,
};
use symphony_chain::chain_id::Chain;
use symphony_chain::chain_spec::{ChainSpec, Genesis};
use symphony_chain::fork_condition::{ForkCondition, ForkTimestamps};
use symphony_chain::hardfork::Hardfork;
use symphony_chain::primitives::{Address, B256, U256};
use symphony_chain::segment::{
    AppendableChain, BlockExecutor, Error, ExecutionError, ForkBlock, TreeExternals,
};
use symphony_chain::state::{BlockChanges, BlockDelta, PostState, Receipt, StateChange};
use symphony_chain::validation::{
    validate_against_parent, validate_block, validate_body, validate_gas_limit, validate_header,
    validate_merge_rules, validate_withdrawal_indices, ConsensusError,
};

struct FakeExecutor {
    fail: bool,
}

impl BlockExecutor for FakeExecutor {
    fn execute_and_verify_receipt(
        &self,
        block: &SealedBlockWithSenders,
        _canonical_fork: ForkBlock,
        _sidechain_state: &PostState,
        _sidechain_block_hashes: &BTreeMap<u64, B256>,
        _canonical_block_hashes: &BTreeMap<u64, B256>,
    ) -> Result<BlockChanges, ExecutionError> {
        if self.fail {
            return Err(ExecutionError::Rejected { reason: "out of gas".to_string() });
        }
        let n = block.block.header.header.number;
        Ok(BlockChanges {
            changes: vec![StateChange::Storage {
                address: Address([n as u8; 20]),
                slot: U256::from_u64(1),
                value: U256::from_u64(n),
            }],
            receipts: vec![Receipt { tx_type: 0, success: true, cumulative_gas_used: 21_000 }],
        })
    }
}

fn spec_with(chain: Chain, forks: Vec<(Hardfork, ForkCondition)>) -> ChainSpec {
    ChainSpec {
        chain,
        genesis: Genesis::default(),
        paris_block_and_final_difficulty: None,
        fork_timestamps: ForkTimestamps::default(),
        hardforks: forks,
    }
}

fn plain_spec() -> ChainSpec {
    spec_with(Chain::Id(1337), vec![(Hardfork::Frontier, ForkCondition::Block(0))])
}

fn header(number: u64, timestamp: u64, gas_limit: u64) -> Header {
    Header {
        parent_hash: B256([0u8; 32]),
        ommers_hash: empty_ommer_root(),
        beneficiary: Address([0u8; 20]),
        state_root: B256([0u8; 32]),
        transactions_root: B256([9u8; 32]),
        receipts_root: B256([0u8; 32]),
        withdrawals_root: None,
        difficulty: U256::zero(),
        number,
        gas_limit,
        gas_used: 0,
        timestamp,
        mix_hash: B256([0u8; 32]),
        nonce: 0,
        base_fee_per_gas: None,
        extra_data: vec![],
    }
}

fn sealed(h: Header) -> SealedHeader {
    SealedHeader { hash: B256([h.number as u8; 32]), header: h }
}

fn block(h: Header) -> SealedBlockWithSenders {
    SealedBlockWithSenders {
        block: SealedBlock { header: sealed(h), body: vec![], ommers: vec![], withdrawals: None },
        senders: vec![],
    }
}

fn roots(b: &SealedBlockWithSenders) -> BodyRoots {
    let h = &b.block.header.header;
    BodyRoots {
        ommers_root: h.ommers_hash,
        transactions_root: h.transactions_root,
        withdrawals_root: None,
    }
}

fn externals(fail: bool) -> TreeExternals<FakeExecutor> {
    TreeExternals { chain_spec: plain_spec(), executor: FakeExecutor { fail } }
}

fn fork_point() -> ForkBlock {
    ForkBlock { number: 0, hash: B256([0u8; 32]) }
}

fn canonical_segment(ext: &TreeExternals<FakeExecutor>) -> AppendableChain {
    let parent = sealed(header(0, 100, 1_024_000));
    let b1 = block(header(1, 110, 1_024_000));
    let r1 = roots(&b1);
    AppendableChain::new_canonical_fork_at(b1, &r1, U256::zero(), &parent, &BTreeMap::new(), fork_point(), ext, 1_000)
        .unwrap()
}

fn delta(number: u64) -> BlockDelta {
    BlockDelta::new(
        number,
        BlockChanges {
            changes: vec![StateChange::Account { address: Address([number as u8; 20]), info: None }],
            receipts: vec![],
        },
    )
}

fn numbers(state: &PostState) -> Vec<u64> {
    let mut v = vec![];
    for i in 0..state.len() {
        v.push(state.block(i).number);
    }
    v
}

#[test]
fn gas_limit_within_a_1024th_passes() {
    assert_eq!(validate_gas_limit(1_024_000, 1_024_999), Ok(()));
    assert_eq!(validate_gas_limit(1_024_000, 1_023_001), Ok(()));
    assert_eq!(
        validate_gas_limit(1_024_000, 1_025_024),
        Err(ConsensusError::GasLimitInvalidIncrease {
            parent_gas_limit: 1_024_000,
            child_gas_limit: 1_025_024
        })
    );
    // a change of exactly a 1024th is allowed, either way
    assert_eq!(validate_gas_limit(1_024_000, 1_025_000), Ok(()));
    assert_eq!(validate_gas_limit(1_024_000, 1_023_000), Ok(()));
    assert_eq!(
        validate_gas_limit(1_024_000, 1_022_999),
        Err(ConsensusError::GasLimitInvalidDecrease {
            parent_gas_limit: 1_024_000,
            child_gas_limit: 1_022_999
        })
    );
    // below 1024 the bound is zero: only an unchanged limit passes
    assert_eq!(validate_gas_limit(200, 200), Ok(()));
    assert_eq!(
        validate_gas_limit(200, 201),
        Err(ConsensusError::GasLimitInvalidIncrease { parent_gas_limit: 200, child_gas_limit: 201 })
    );
}

#[test]
fn gas_limit_doubles_at_the_london_transition() {
    let spec = spec_with(Chain::Id(1337), vec![(Hardfork::London, ForkCondition::Block(5))]);
    let mut parent = header(4, 10, 1_024_000);
    parent.base_fee_per_gas = None;
    let mut child = header(5, 20, 2_048_000);
    child.base_fee_per_gas = Some(1_000_000_000);
    assert_eq!(validate_against_parent(&spec, &child, &parent), Ok(()));
    child.gas_limit = 1_024_000;
    assert_eq!(
        validate_against_parent(&spec, &child, &parent),
        Err(ConsensusError::GasLimitInvalidDecrease {
            parent_gas_limit: 2_048_000,
            child_gas_limit: 1_024_000
        })
    );
    let small_parent = header(4, 10, 100);
    let mut small_child = header(5, 20, 200);
    small_child.base_fee_per_gas = Some(1_000_000_000);
    assert_eq!(validate_against_parent(&spec, &small_child, &small_parent), Ok(()));
}

#[test]
fn base_fee_rules_after_london() {
    let spec = spec_with(Chain::Id(1337), vec![(Hardfork::London, ForkCondition::Block(0))]);
    let h = header(3, 10, 30_000_000);
    assert_eq!(validate_header(&spec, &h, 100), Err(ConsensusError::BaseFeeMissing));
    let mut parent = header(2, 5, 30_000_000);
    parent.gas_used = 30_000_000;
    parent.base_fee_per_gas = Some(1_000_000_000);
    let mut child = header(3, 10, 30_000_000);
    child.base_fee_per_gas = Some(1_000_000_000);
    assert_eq!(
        validate_against_parent(&spec, &child, &parent),
        Err(ConsensusError::BaseFeeDiff { expected: 1_125_000_000, got: 1_000_000_000 })
    );
    child.base_fee_per_gas = Some(1_125_000_000);
    assert_eq!(validate_against_parent(&spec, &child, &parent), Ok(()));
}

#[test]
fn next_base_fee_formula() {
    assert_eq!(calculate_next_block_base_fee(15_000_000, 30_000_000, 1_000_000_000), Some(1_000_000_000));
    assert_eq!(calculate_next_block_base_fee(30_000_000, 30_000_000, 1_000_000_000), Some(1_125_000_000));
    assert_eq!(calculate_next_block_base_fee(0, 30_000_000, 1_000_000_000), Some(875_000_000));
    assert_eq!(calculate_next_block_base_fee(15_000_001, 30_000_000, 7), Some(8));
    assert_eq!(calculate_next_block_base_fee(1, 1, 7), None);
}

#[test]
fn withdrawals_rules() {
    let spec = spec_with(Chain::Id(1337), vec![(Hardfork::Shanghai, ForkCondition::Timestamp(1_000))]);
    let mut h = header(3, 10, 30_000_000);
    h.withdrawals_root = Some(B256([1u8; 32]));
    assert_eq!(validate_header(&spec, &h, 100), Err(ConsensusError::WithdrawalsRootUnexpected));
    let late = header(3, 2_000, 30_000_000);
    assert_eq!(validate_header(&spec, &late, 5_000), Err(ConsensusError::WithdrawalsRootMissing));
    let ws: Vec<Withdrawal> = [5u64, 6, 8]
        .iter()
        .map(|i| Withdrawal { index: *i, validator_index: 0, address: Address([0u8; 20]), amount: 1 })
        .collect();
    assert_eq!(
        validate_withdrawal_indices(&ws),
        Err(ConsensusError::WithdrawalIndexInvalid { got: 8, expected: 7 })
    );
    assert_eq!(validate_withdrawal_indices(&ws[..2].to_vec()), Ok(()));
    assert_eq!(validate_withdrawal_indices(&vec![]), Ok(()));
}

#[test]
fn body_rules_after_shanghai() {
    let spec = spec_with(Chain::Id(1337), vec![(Hardfork::Shanghai, ForkCondition::Timestamp(0))]);
    let mut h = header(1, 10, 30_000_000);
    h.withdrawals_root = Some(B256([4u8; 32]));
    let mut b = block(h);
    let mut r = roots(&b);
    assert_eq!(validate_body(&spec, &b.block, &r), Err(ConsensusError::BodyWithdrawalsMissing));
    b.block.withdrawals = Some(vec![]);
    r.withdrawals_root = Some(B256([5u8; 32]));
    assert_eq!(
        validate_body(&spec, &b.block, &r),
        Err(ConsensusError::BodyWithdrawalsRootDiff { got: B256([5u8; 32]), expected: B256([4u8; 32]) })
    );
    r.withdrawals_root = Some(B256([4u8; 32]));
    assert_eq!(validate_body(&spec, &b.block, &r), Ok(()));
    r.transactions_root = B256([8u8; 32]);
    assert_eq!(
        validate_body(&spec, &b.block, &r),
        Err(ConsensusError::BodyTransactionRootDiff { got: B256([8u8; 32]), expected: B256([9u8; 32]) })
    );
    r.ommers_root = B256([0u8; 32]);
    assert_eq!(
        validate_body(&spec, &b.block, &r),
        Err(ConsensusError::BodyOmmersHashDiff { got: B256([0u8; 32]), expected: empty_ommer_root() })
    );
}

#[test]
fn merge_rules() {
    let merged = spec_with(
        Chain::Id(1337),
        vec![(Hardfork::Paris, ForkCondition::TTD { fork_block: None, total_difficulty: U256::zero() })],
    );
    let mut h = header(1, 10, 30_000_000);
    assert_eq!(validate_merge_rules(&merged, &h, U256::max_value()), Ok(()));
    h.difficulty = U256::from_u64(1);
    assert_eq!(validate_merge_rules(&merged, &h, U256::max_value()), Err(ConsensusError::TheMergeDifficultyIsNotZero));
    h.difficulty = U256::zero();
    h.nonce = 3;
    assert_eq!(validate_merge_rules(&merged, &h, U256::max_value()), Err(ConsensusError::TheMergeNonceIsNotZero));
    h.nonce = 0;
    h.ommers_hash = B256([2u8; 32]);
    assert_eq!(validate_merge_rules(&merged, &h, U256::max_value()), Err(ConsensusError::TheMergeOmmerRootIsNotEmpty));
    h.ommers_hash = empty_ommer_root();
    h.extra_data = vec![0u8; 33];
    assert_eq!(validate_merge_rules(&merged, &h, U256::max_value()), Err(ConsensusError::ExtraDataExceedsMax { len: 33 }));
    // before the merge the limit holds, but for the exempt legacy network
    assert_eq!(
        validate_merge_rules(&plain_spec(), &h, U256::max_value()),
        Err(ConsensusError::ExtraDataExceedsMax { len: 33 })
    );
    let exempt = spec_with(Chain::Id(5), vec![]);
    assert_eq!(validate_merge_rules(&exempt, &h, U256::max_value()), Ok(()));
}

#[test]
fn header_rules() {
    let spec = plain_spec();
    let mut h = header(1, 10, 100);
    h.gas_used = 101;
    assert_eq!(
        validate_header(&spec, &h, 50),
        Err(ConsensusError::HeaderGasUsedExceedsGasLimit { gas_used: 101, gas_limit: 100 })
    );
    h.gas_used = 100;
    assert_eq!(
        validate_header(&spec, &h, 9),
        Err(ConsensusError::TimestampIsInFuture { timestamp: 10, present_timestamp: 9 })
    );
    assert_eq!(validate_header(&spec, &h, 10), Ok(()));
    let parent = header(0, 11, 100);
    assert_eq!(
        validate_against_parent(&spec, &h, &parent),
        Err(ConsensusError::TimestampIsInPast { parent_timestamp: 11, timestamp: 10 })
    );
    let far = header(7, 11, 100);
    assert_eq!(
        validate_against_parent(&spec, &h, &far),
        Err(ConsensusError::ParentBlockNumberMismatch { parent_block_number: 7, block_number: 1 })
    );
}

#[test]
fn validate_block_reports_the_first_failure() {
    let spec = plain_spec();
    let parent = sealed(header(0, 10, 1_024_000));
    let mut h = header(2, 20, 1_024_000);
    h.gas_used = 2_000_000;
    let b = block(h);
    let r = roots(&b);
    // both the gas used and the parent number are wrong: the header's own check comes first
    assert_eq!(
        validate_block(&spec, &b.block, &r, &parent, U256::zero(), 1_000),
        Err(ConsensusError::HeaderGasUsedExceedsGasLimit { gas_used: 2_000_000, gas_limit: 1_024_000 })
    );
}

#[test]
fn revert_then_extend_rebuilds_the_delta() {
    let mut full = PostState::new();
    for n in 1..=5u64 {
        full.extend(PostState::from_block(delta(n)));
    }
    let mut rebuilt = full.duplicate();
    rebuilt.revert_to(2);
    assert_eq!(numbers(&rebuilt), vec![1, 2]);
    for n in 3..=5u64 {
        rebuilt.extend(PostState::from_block(delta(n)));
    }
    assert_eq!(numbers(&rebuilt), numbers(&full));
    for i in 0..full.len() {
        assert_eq!(rebuilt.block(i).changes, full.block(i).changes);
    }
    let mut none = full.duplicate();
    none.revert_to(0);
    assert_eq!(none.len(), 0);
    let mut all = full.duplicate();
    all.revert_to(9);
    assert_eq!(all.len(), 5);
    assert_eq!(PostState::default().last_block(), None);
}

#[test]
fn append_block_grows_by_one_on_success() {
    let ext = externals(false);
    let mut chain = canonical_segment(&ext);
    assert_eq!(chain.chain.len(), 1);
    let b2 = block(header(2, 120, 1_024_500));
    let r2 = roots(&b2);
    let res = chain.append_block_at(b2, &r2, U256::zero(), BTreeMap::new(), &BTreeMap::new(), fork_point(), &ext, 1_000);
    assert_eq!(res, Ok(()));
    assert_eq!(chain.chain.len(), 2);
    assert_eq!(chain.chain.state().last_block(), Some(2));
    assert_eq!(chain.chain.tip().block.header.header.number, 2);
}

#[test]
fn append_block_leaves_the_segment_unchanged_on_failure() {
    let ext = externals(false);
    let mut chain = canonical_segment(&ext);
    let bad = block(header(3, 120, 1_024_000));
    let rb = roots(&bad);
    let res = chain.append_block_at(bad, &rb, U256::zero(), BTreeMap::new(), &BTreeMap::new(), fork_point(), &ext, 1_000);
    assert_eq!(
        res,
        Err(Error::Consensus(ConsensusError::ParentBlockNumberMismatch {
            parent_block_number: 1,
            block_number: 3
        }))
    );
    assert_eq!(chain.chain.len(), 1);
    assert_eq!(numbers(chain.chain.state()), vec![1]);

    let failing = externals(true);
    let b2 = block(header(2, 120, 1_024_000));
    let r2 = roots(&b2);
    let res = chain.append_block_at(b2, &r2, U256::zero(), BTreeMap::new(), &BTreeMap::new(), fork_point(), &failing, 1_000);
    assert_eq!(
        res,
        Err(Error::Execution(ExecutionError::Rejected { reason: "out of gas".to_string() }))
    );
    assert_eq!(chain.chain.len(), 1);
    assert_eq!(numbers(chain.chain.state()), vec![1]);
}

#[test]
fn append_block_reads_the_clock() {
    let ext = externals(false);
    let mut chain = canonical_segment(&ext);
    let b2 = block(header(2, 120, 1_024_000));
    let r2 = roots(&b2);
    assert_eq!(chain.append_block(b2, &r2, U256::zero(), BTreeMap::new(), &BTreeMap::new(), fork_point(), &ext), Ok(()));
    let b3 = block(header(3, u64::MAX, 1_024_000));
    let r3 = roots(&b3);
    let res = chain.append_block(b3, &r3, U256::zero(), BTreeMap::new(), &BTreeMap::new(), fork_point(), &ext);
    assert!(matches!(res, Err(Error::Consensus(ConsensusError::TimestampIsInFuture { .. }))));
    assert_eq!(chain.chain.len(), 2);
}

#[test]
fn new_chain_fork_leaves_its_source_unchanged() {
    let ext = externals(false);
    let mut chain = canonical_segment(&ext);
    for n in 2..=3u64 {
        let b = block(header(n, 100 + 10 * n, 1_024_000));
        let r = roots(&b);
        chain.append_block_at(b, &r, U256::zero(), BTreeMap::new(), &BTreeMap::new(), fork_point(), &ext, 1_000).unwrap();
    }
    let fork_block = block(header(2, 125, 1_024_100));
    let rf = roots(&fork_block);
    let forked = chain
        .new_chain_fork_at(fork_block, &rf, U256::zero(), BTreeMap::new(), &BTreeMap::new(), fork_point(), &ext, 1_000)
        .unwrap();
    assert_eq!(forked.chain.len(), 1);
    assert_eq!(forked.chain.tip().block.header.header.timestamp, 125);
    assert_eq!(numbers(forked.chain.state()), vec![1, 2]);
    assert_eq!(chain.chain.len(), 3);
    assert_eq!(numbers(chain.chain.state()), vec![1, 2, 3]);

    let orphan = block(header(9, 125, 1_024_000));
    let ro = roots(&orphan);
    let res = chain.new_chain_fork_at(orphan, &ro, U256::zero(), BTreeMap::new(), &BTreeMap::new(), fork_point(), &ext, 1_000);
    assert_eq!(
        res.unwrap_err(),
        Error::Execution(ExecutionError::BlockNumberNotFoundInChain { block_number: 8 })
    );
    assert_eq!(chain.chain.len(), 3);
    assert_eq!(numbers(chain.chain.state()), vec![1, 2, 3]);
}

#[test]
fn new_canonical_fork_fails_on_a_broken_rule() {
    let ext = externals(false);
    let parent = sealed(header(0, 100, 1_024_000));
    let mut h = header(1, 90, 1_024_000);
    h.gas_used = 0;
    let b = block(h);
    let r = roots(&b);
    let res = AppendableChain::new_canonical_fork(b, &r, U256::zero(), &parent, &BTreeMap::new(), fork_point(), &ext);
    assert_eq!(
        res.unwrap_err(),
        Error::Consensus(ConsensusError::TimestampIsInPast { parent_timestamp: 100, timestamp: 90 })
    );
}

#[test]
fn later_writes_win_in_the_delta() {
    let addr = Address([1u8; 20]);
    let info = |nonce: u64| symphony_chain::state::AccountInfo {
        balance: U256::from_u64(10),
        nonce,
        code_hash: B256([0u8; 32]),
    };
    let mut state = PostState::from_block(BlockDelta::new(
        1,
        BlockChanges {
            changes: vec![
                StateChange::Account { address: addr, info: Some(info(1)) },
                StateChange::Storage { address: addr, slot: U256::from_u64(3), value: U256::from_u64(30) },
                StateChange::Account { address: addr, info: Some(info(2)) },
            ],
            receipts: vec![],
        },
    ));
    assert_eq!(state.account(&addr), Some(Some(info(2))));
    state.extend(PostState::from_block(BlockDelta::new(
        2,
        BlockChanges {
            changes: vec![
                StateChange::Storage { address: addr, slot: U256::from_u64(3), value: U256::from_u64(31) },
                StateChange::Account { address: addr, info: None },
            ],
            receipts: vec![],
        },
    )));
    assert_eq!(state.account(&addr), Some(None));
    assert_eq!(state.storage(&addr, &U256::from_u64(3)), Some(U256::from_u64(31)));
    assert_eq!(state.storage(&addr, &U256::from_u64(4)), None);
    assert_eq!(state.account(&Address([2u8; 20])), None);
    state.revert_to(1);
    assert_eq!(state.account(&addr), Some(Some(info(2))));
    assert_eq!(state.storage(&addr, &U256::from_u64(3)), Some(U256::from_u64(30)));
}

#[test]
fn base_fee_before_london_is_unexpected() {
    let spec = spec_with(Chain::Id(1337), vec![(Hardfork::London, ForkCondition::Block(10))]);
    let mut h = header(3, 10, 30_000_000);
    h.base_fee_per_gas = Some(7);
    assert_eq!(validate_header(&spec, &h, 100), Err(ConsensusError::BaseFeeUnexpected));
    h.number = 10;
    assert_eq!(validate_header(&spec, &h, 100), Ok(()));
}

#[test]
fn receipts_concatenate_in_block_order() {
    let r = |gas: u64| Receipt { tx_type: 2, success: true, cumulative_gas_used: gas };
    let mut state = PostState::from_block(BlockDelta::new(
        4,
        BlockChanges { changes: vec![], receipts: vec![r(1), r(2)] },
    ));
    state.extend(PostState::from_block(BlockDelta::new(
        5,
        BlockChanges { changes: vec![], receipts: vec![r(3)] },
    )));
    assert_eq!(state.receipts(), vec![r(1), r(2), r(3)]);
    assert_eq!(state.first_block(), Some(4));
    state.revert_to(4);
    assert_eq!(state.receipts(), vec![r(1), r(2)]);
}

#[test]
fn forking_at_the_tip_matches_appending() {
    let ext = externals(false);
    let mut chain = canonical_segment(&ext);
    let b2 = block(header(2, 120, 1_024_000));
    let r2 = roots(&b2);
    chain.append_block_at(b2, &r2, U256::zero(), BTreeMap::new(), &BTreeMap::new(), fork_point(), &ext, 1_000).unwrap();
    let b3 = block(header(3, 130, 1_024_000));
    let r3 = roots(&b3);
    let forked = chain
        .new_chain_fork_at(b3.clone(), &r3, U256::zero(), BTreeMap::new(), &BTreeMap::new(), fork_point(), &ext, 1_000)
        .unwrap();
    chain.append_block_at(b3, &r3, U256::zero(), BTreeMap::new(), &BTreeMap::new(), fork_point(), &ext, 1_000).unwrap();
    assert_eq!(numbers(forked.chain.state()), numbers(chain.chain.state()));
    for i in 0..chain.chain.state().len() {
        assert_eq!(forked.chain.state().block(i).changes, chain.chain.state().block(i).changes);
        assert_eq!(forked.chain.state().block(i).receipts, chain.chain.state().block(i).receipts);
    }
    assert_eq!(forked.chain.len(), 1);
    assert_eq!(chain.chain.len(), 3);
}
