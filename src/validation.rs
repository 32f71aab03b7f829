//! The consensus rules a block is checked against before it is executed: the
//! merge rules, the header's own fields, the header against its parent, and
//! the body against the header. The checks run in that order and the first
//! violation is the one reported.
use vstd::prelude::*;
use crate::block::{
    BodyRoots, Header, SealedBlock, SealedHeader, Withdrawal, EIP1559_ELASTICITY_MULTIPLIER,
    EIP1559_INITIAL_BASE_FEE, MAXIMUM_EXTRA_DATA_SIZE, empty_ommer_root, empty_ommer_root_bytes,
};
use crate::chain_spec::ChainSpec;
use crate::hardfork::Hardfork;
use crate::primitives::{B256, U256};

verus! {

/// A violated consensus rule, with the values involved.
#[derive(Clone, Copy, Debug, PartialEq, Eq)]
pub enum ConsensusError {
    TheMergeDifficultyIsNotZero,
    TheMergeNonceIsNotZero,
    TheMergeOmmerRootIsNotEmpty,
    ExtraDataExceedsMax { len: usize },
    HeaderGasUsedExceedsGasLimit { gas_used: u64, gas_limit: u64 },
    /// The block is later than the local clock; the clock may be behind, so
    /// the block may pass when checked again later.
    TimestampIsInFuture { timestamp: u64, present_timestamp: u64 },
    TimestampIsInPast { parent_timestamp: u64, timestamp: u64 },
    BaseFeeMissing,
    /// A base fee where the fee market is not active.
    BaseFeeUnexpected,
    BaseFeeDiff { expected: u64, got: u64 },
    WithdrawalsRootMissing,
    WithdrawalsRootUnexpected,
    ParentBlockNumberMismatch { parent_block_number: u64, block_number: u64 },
    GasLimitInvalidIncrease { parent_gas_limit: u64, child_gas_limit: u64 },
    GasLimitInvalidDecrease { parent_gas_limit: u64, child_gas_limit: u64 },
    BodyOmmersHashDiff { got: B256, expected: B256 },
    BodyTransactionRootDiff { got: B256, expected: B256 },
    BodyWithdrawalsMissing,
    BodyWithdrawalsRootDiff { got: B256, expected: B256 },
    WithdrawalIndexInvalid { got: u64, expected: u64 },
}

pub open spec fn extra_data_error(header: Header) -> Option<ConsensusError> {
    if header.extra_data@.len() > MAXIMUM_EXTRA_DATA_SIZE {
        Some(ConsensusError::ExtraDataExceedsMax { len: header.extra_data@.len() as usize })
    } else {
        None
    }
}

/// The merge rules, for a block whose cumulative difficulty, its own
/// included, is `total_difficulty`: once Paris is active there the difficulty
/// and the nonce are zero and there are no ommers. The extra-data limit holds
/// throughout, but for the exempt network before the merge.
pub open spec fn merge_error(spec: ChainSpec, header: Header, total_difficulty: U256) -> Option<ConsensusError> {
    if spec.spec_fork(Hardfork::Paris).spec_active_at_ttd(total_difficulty, header.difficulty) {
        if header.difficulty.value() != 0 {
            Some(ConsensusError::TheMergeDifficultyIsNotZero)
        } else if header.nonce != 0 {
            Some(ConsensusError::TheMergeNonceIsNotZero)
        } else if header.ommers_hash@ != empty_ommer_root_bytes() {
            Some(ConsensusError::TheMergeOmmerRootIsNotEmpty)
        } else {
            extra_data_error(header)
        }
    } else if spec.chain.spec_id() != crate::chain_id::LEGACY_EXTRA_DATA_EXEMPT_ID {
        extra_data_error(header)
    } else {
        None
    }
}

/// The rules on a header's own fields, with the clock at `now`: the base fee
/// and the withdrawals root are present exactly when their forks are active.
pub open spec fn header_error(spec: ChainSpec, header: Header, now: u64) -> Option<ConsensusError> {
    let london = spec.spec_fork(Hardfork::London).spec_active_at_block(header.number);
    let shanghai = spec.spec_fork(Hardfork::Shanghai).spec_active_at_timestamp(header.timestamp);
    if header.gas_used > header.gas_limit {
        Some(
            ConsensusError::HeaderGasUsedExceedsGasLimit {
                gas_used: header.gas_used,
                gas_limit: header.gas_limit,
            },
        )
    } else if header.timestamp > now {
        Some(
            ConsensusError::TimestampIsInFuture {
                timestamp: header.timestamp,
                present_timestamp: now,
            },
        )
    } else if london && header.base_fee_per_gas is None {
        Some(ConsensusError::BaseFeeMissing)
    } else if !london && header.base_fee_per_gas is Some {
        Some(ConsensusError::BaseFeeUnexpected)
    } else if shanghai && header.withdrawals_root is None {
        Some(ConsensusError::WithdrawalsRootMissing)
    } else if !shanghai && header.withdrawals_root is Some {
        Some(ConsensusError::WithdrawalsRootUnexpected)
    } else {
        None
    }
}

/// The parent's gas limit that a child's is compared with: at the block where
/// London activates it is scaled by the elasticity multiplier, saturating at
/// `u64::MAX`.
pub open spec fn effective_parent_gas_limit(spec: ChainSpec, header: Header, parent: Header) -> u64 {
    if spec.spec_fork(Hardfork::London).spec_transitions_at_block(header.number) {
        if parent.gas_limit as int * EIP1559_ELASTICITY_MULTIPLIER as int > u64::MAX {
            u64::MAX
        } else {
            (parent.gas_limit * EIP1559_ELASTICITY_MULTIPLIER) as u64
        }
    } else {
        parent.gas_limit
    }
}

/// A child's gas limit may differ from the parent's by at most a 1024th of
/// the parent's, either way.
pub open spec fn gas_limit_error(parent_gas_limit: u64, gas_limit: u64) -> Option<ConsensusError> {
    if gas_limit > parent_gas_limit {
        if gas_limit - parent_gas_limit > parent_gas_limit / 1024 {
            Some(
                ConsensusError::GasLimitInvalidIncrease {
                    parent_gas_limit,
                    child_gas_limit: gas_limit,
                },
            )
        } else {
            None
        }
    } else if parent_gas_limit - gas_limit > parent_gas_limit / 1024 {
        Some(
            ConsensusError::GasLimitInvalidDecrease { parent_gas_limit, child_gas_limit: gas_limit },
        )
    } else {
        None
    }
}

/// Once London is active a header's base fee is the initial one at the
/// activation block and the fee-market formula on the parent after it.
pub open spec fn base_fee_error(spec: ChainSpec, header: Header, parent: Header) -> Option<ConsensusError> {
    if spec.spec_fork(Hardfork::London).spec_active_at_block(header.number) {
        match header.base_fee_per_gas {
            None => Some(ConsensusError::BaseFeeMissing),
            Some(got) => {
                let expected = if spec.spec_fork(Hardfork::London).spec_transitions_at_block(
                    header.number,
                ) {
                    Some(EIP1559_INITIAL_BASE_FEE)
                } else {
                    parent.spec_next_block_base_fee()
                };
                match expected {
                    None => Some(ConsensusError::BaseFeeMissing),
                    Some(expected) => if expected != got {
                        Some(ConsensusError::BaseFeeDiff { expected, got })
                    } else {
                        None
                    },
                }
            },
        }
    } else {
        None
    }
}

/// The rules on a header against its parent's.
pub open spec fn parent_error(spec: ChainSpec, header: Header, parent: Header) -> Option<ConsensusError> {
    if parent.number as int + 1 != header.number as int {
        Some(
            ConsensusError::ParentBlockNumberMismatch {
                parent_block_number: parent.number,
                block_number: header.number,
            },
        )
    } else if header.timestamp < parent.timestamp {
        Some(
            ConsensusError::TimestampIsInPast {
                parent_timestamp: parent.timestamp,
                timestamp: header.timestamp,
            },
        )
    } else {
        match gas_limit_error(effective_parent_gas_limit(spec, header, parent), header.gas_limit) {
            Some(e) => Some(e),
            None => base_fee_error(spec, header, parent),
        }
    }
}

/// The index that must follow `prev`; past `u64::MAX` it wraps to zero.
pub open spec fn next_index(prev: u64) -> u64 {
    if prev == u64::MAX {
        0
    } else {
        (prev + 1) as u64
    }
}

/// The first withdrawal, from position `i` on, whose index does not follow
/// the one before it.
pub open spec fn withdrawal_index_error_from(ws: Seq<Withdrawal>, i: int) -> Option<ConsensusError>
    decreases ws.len() - i,
{
    if i <= 0 || i >= ws.len() {
        None
    } else if ws[i].index != next_index(ws[i - 1].index) {
        Some(
            ConsensusError::WithdrawalIndexInvalid {
                got: ws[i].index,
                expected: next_index(ws[i - 1].index),
            },
        )
    } else {
        withdrawal_index_error_from(ws, i + 1)
    }
}

/// The rules on a body against its header, given the roots computed from it.
pub open spec fn body_error(spec: ChainSpec, block: SealedBlock, roots: BodyRoots) -> Option<ConsensusError> {
    let header = block.header.header;
    if roots.ommers_root@ != header.ommers_hash@ {
        Some(
            ConsensusError::BodyOmmersHashDiff {
                got: roots.ommers_root,
                expected: header.ommers_hash,
            },
        )
    } else if roots.transactions_root@ != header.transactions_root@ {
        Some(
            ConsensusError::BodyTransactionRootDiff {
                got: roots.transactions_root,
                expected: header.transactions_root,
            },
        )
    } else if spec.spec_fork(Hardfork::Shanghai).spec_active_at_timestamp(header.timestamp) {
        match (block.withdrawals, roots.withdrawals_root) {
            (Some(ws), Some(computed)) => match header.withdrawals_root {
                None => Some(ConsensusError::WithdrawalsRootMissing),
                Some(expected) => if computed@ != expected@ {
                    Some(ConsensusError::BodyWithdrawalsRootDiff { got: computed, expected })
                } else {
                    withdrawal_index_error_from(ws@, 1)
                },
            },
            _ => Some(ConsensusError::BodyWithdrawalsMissing),
        }
    } else {
        None
    }
}

/// The first rule that `block` breaks, in the order: merge rules, header
/// fields, header against parent, body against header.
pub open spec fn validation_error(
    spec: ChainSpec,
    block: SealedBlock,
    roots: BodyRoots,
    parent: Header,
    total_difficulty: U256,
    now: u64,
) -> Option<ConsensusError> {
    let header = block.header.header;
    match merge_error(spec, header, total_difficulty) {
        Some(e) => Some(e),
        None => match header_error(spec, header, now) {
            Some(e) => Some(e),
            None => match parent_error(spec, header, parent) {
                Some(e) => Some(e),
                None => body_error(spec, block, roots),
            },
        },
    }
}

pub open spec fn as_result(e: Option<ConsensusError>) -> Result<(), ConsensusError> {
    match e {
        Some(e) => Err(e),
        None => Ok(()),
    }
}

fn check_extra_data(header: &Header) -> (r: Result<(), ConsensusError>)
    ensures
        r == as_result(extra_data_error(*header)),
{
    if header.extra_data.len() > MAXIMUM_EXTRA_DATA_SIZE {
        Err(ConsensusError::ExtraDataExceedsMax { len: header.extra_data.len() })
    } else {
        Ok(())
    }
}

/// Checks the merge rules on a header whose block has the cumulative
/// difficulty `total_difficulty`.
pub fn validate_merge_rules(spec: &ChainSpec, header: &Header, total_difficulty: U256) -> (r: Result<
    (),
    ConsensusError,
>)
    ensures
        r == as_result(merge_error(*spec, *header, total_difficulty)),
{
    if spec.fork(Hardfork::Paris).active_at_ttd(total_difficulty, header.difficulty) {
        if !header.difficulty.is_zero() {
            return Err(ConsensusError::TheMergeDifficultyIsNotZero);
        }
        if header.nonce != 0 {
            return Err(ConsensusError::TheMergeNonceIsNotZero);
        }
        if !header.ommers_hash.same_as(&empty_ommer_root()) {
            return Err(ConsensusError::TheMergeOmmerRootIsNotEmpty);
        }
        check_extra_data(header)
    } else if !spec.extra_data_exempt_before_merge() {
        check_extra_data(header)
    } else {
        Ok(())
    }
}

/// Checks a header's own fields, with the clock at `present_timestamp`.
pub fn validate_header(spec: &ChainSpec, header: &Header, present_timestamp: u64) -> (r: Result<
    (),
    ConsensusError,
>)
    ensures
        r == as_result(header_error(*spec, *header, present_timestamp)),
{
    if header.gas_used > header.gas_limit {
        return Err(
            ConsensusError::HeaderGasUsedExceedsGasLimit {
                gas_used: header.gas_used,
                gas_limit: header.gas_limit,
            },
        );
    }
    if header.timestamp > present_timestamp {
        return Err(
            ConsensusError::TimestampIsInFuture { timestamp: header.timestamp, present_timestamp },
        );
    }
    let london = spec.fork(Hardfork::London).active_at_block(header.number);
    if london && header.base_fee_per_gas.is_none() {
        return Err(ConsensusError::BaseFeeMissing);
    }
    if !london && header.base_fee_per_gas.is_some() {
        return Err(ConsensusError::BaseFeeUnexpected);
    }
    let shanghai = spec.fork(Hardfork::Shanghai).active_at_timestamp(header.timestamp);
    if shanghai && header.withdrawals_root.is_none() {
        Err(ConsensusError::WithdrawalsRootMissing)
    } else if !shanghai && header.withdrawals_root.is_some() {
        Err(ConsensusError::WithdrawalsRootUnexpected)
    } else {
        Ok(())
    }
}

/// Checks that a child's gas limit is within a 1024th of its parent's, the
/// bound included.
pub fn validate_gas_limit(parent_gas_limit: u64, gas_limit: u64) -> (r: Result<(), ConsensusError>)
    ensures
        r == as_result(gas_limit_error(parent_gas_limit, gas_limit)),
{
    if gas_limit > parent_gas_limit {
        if gas_limit - parent_gas_limit > parent_gas_limit / 1024 {
            return Err(
                ConsensusError::GasLimitInvalidIncrease {
                    parent_gas_limit,
                    child_gas_limit: gas_limit,
                },
            );
        }
    } else if parent_gas_limit - gas_limit > parent_gas_limit / 1024 {
        return Err(
            ConsensusError::GasLimitInvalidDecrease { parent_gas_limit, child_gas_limit: gas_limit },
        );
    }
    Ok(())
}

/// Checks a header against its parent's.
pub fn validate_against_parent(spec: &ChainSpec, header: &Header, parent: &Header) -> (r: Result<
    (),
    ConsensusError,
>)
    ensures
        r == as_result(parent_error(*spec, *header, *parent)),
{
    if parent.number == u64::MAX || parent.number + 1 != header.number {
        return Err(
            ConsensusError::ParentBlockNumberMismatch {
                parent_block_number: parent.number,
                block_number: header.number,
            },
        );
    }
    if header.timestamp < parent.timestamp {
        return Err(
            ConsensusError::TimestampIsInPast {
                parent_timestamp: parent.timestamp,
                timestamp: header.timestamp,
            },
        );
    }
    let london = spec.fork(Hardfork::London);
    let mut parent_gas_limit = parent.gas_limit;
    if london.transitions_at_block(header.number) {
        parent_gas_limit = if parent.gas_limit > u64::MAX / EIP1559_ELASTICITY_MULTIPLIER {
            u64::MAX
        } else {
            parent.gas_limit * EIP1559_ELASTICITY_MULTIPLIER
        };
    }
    validate_gas_limit(parent_gas_limit, header.gas_limit)?;
    if london.active_at_block(header.number) {
        let base_fee = match header.base_fee_per_gas {
            Some(fee) => fee,
            None => {
                return Err(ConsensusError::BaseFeeMissing);
            },
        };
        let expected = if london.transitions_at_block(header.number) {
            EIP1559_INITIAL_BASE_FEE
        } else {
            match parent.next_block_base_fee() {
                Some(fee) => fee,
                None => {
                    return Err(ConsensusError::BaseFeeMissing);
                },
            }
        };
        if expected != base_fee {
            return Err(ConsensusError::BaseFeeDiff { expected, got: base_fee });
        }
    }
    Ok(())
}

/// Checks that each withdrawal's index follows the one before it.
pub fn validate_withdrawal_indices(withdrawals: &Vec<Withdrawal>) -> (r: Result<(), ConsensusError>)
    ensures
        r == as_result(withdrawal_index_error_from(withdrawals@, 1)),
{
    let n = withdrawals.len();
    if n == 0 {
        return Ok(());
    }
    let mut prev_index = withdrawals[0].index;
    let mut i: usize = 1;
    while i < n
        invariant
            1 <= i <= n,
            n == withdrawals@.len(),
            prev_index == withdrawals@[i - 1].index,
            withdrawal_index_error_from(withdrawals@, i as int) == withdrawal_index_error_from(
                withdrawals@,
                1,
            ),
        decreases n - i,
    {
        let expected = if prev_index == u64::MAX {
            0
        } else {
            prev_index + 1
        };
        let got = withdrawals[i].index;
        if expected != got {
            return Err(ConsensusError::WithdrawalIndexInvalid { got, expected });
        }
        prev_index = got;
        i = i + 1;
    }
    Ok(())
}

/// Checks a block's body against its header, given the roots computed from
/// the body.
pub fn validate_body(spec: &ChainSpec, block: &SealedBlock, roots: &BodyRoots) -> (r: Result<
    (),
    ConsensusError,
>)
    ensures
        r == as_result(body_error(*spec, *block, *roots)),
{
    let header = &block.header.header;
    if !roots.ommers_root.same_as(&header.ommers_hash) {
        return Err(
            ConsensusError::BodyOmmersHashDiff {
                got: roots.ommers_root,
                expected: header.ommers_hash,
            },
        );
    }
    if !roots.transactions_root.same_as(&header.transactions_root) {
        return Err(
            ConsensusError::BodyTransactionRootDiff {
                got: roots.transactions_root,
                expected: header.transactions_root,
            },
        );
    }
    if spec.fork(Hardfork::Shanghai).active_at_timestamp(header.timestamp) {
        let (withdrawals, computed) = match (&block.withdrawals, &roots.withdrawals_root) {
            (Some(ws), Some(computed)) => (ws, computed),
            _ => {
                return Err(ConsensusError::BodyWithdrawalsMissing);
            },
        };
        let expected = match &header.withdrawals_root {
            Some(root) => root,
            None => {
                return Err(ConsensusError::WithdrawalsRootMissing);
            },
        };
        if !computed.same_as(expected) {
            return Err(
                ConsensusError::BodyWithdrawalsRootDiff { got: *computed, expected: *expected },
            );
        }
        validate_withdrawal_indices(withdrawals)
    } else {
        Ok(())
    }
}

/// Checks `block` against every consensus rule, in order, and reports the
/// first one it breaks. `parent` is the header the block builds on, `roots`
/// those computed from its body, `total_difficulty` the block's cumulative
/// difficulty, its own included, and `present_timestamp` the local clock.
pub fn validate_block(
    spec: &ChainSpec,
    block: &SealedBlock,
    roots: &BodyRoots,
    parent: &SealedHeader,
    total_difficulty: U256,
    present_timestamp: u64,
) -> (r: Result<(), ConsensusError>)
    ensures
        r == as_result(
            validation_error(*spec, *block, *roots, parent.header, total_difficulty, present_timestamp),
        ),
{
    let header = &block.header.header;
    validate_merge_rules(spec, header, total_difficulty)?;
    validate_header(spec, header, present_timestamp)?;
    validate_against_parent(spec, header, &parent.header)?;
    validate_body(spec, block, roots)
}

} // verus!
