//! Headers, blocks and the protocol constants that blocks are checked against.
use vstd::prelude::*;
use crate::primitives::{Address, B256, U256};

verus! {

/// The base fee of the block at which the fee market activates.
pub const EIP1559_INITIAL_BASE_FEE: u64 = 1_000_000_000;

/// The factor between a block's gas limit and its gas target.
pub const EIP1559_ELASTICITY_MULTIPLIER: u64 = 2;

/// Bounds the change of the base fee from one block to the next.
pub const EIP1559_BASE_FEE_MAX_CHANGE_DENOMINATOR: u64 = 8;

/// The longest extra data a header may carry.
pub const MAXIMUM_EXTRA_DATA_SIZE: usize = 32;

/// The bytes of the ommers hash of a block without ommers.
pub open spec fn empty_ommer_root_bytes() -> Seq<u8> {
    seq![
        0x1du8, 0xcc, 0x4d, 0xe8, 0xde, 0xc7, 0x5d, 0x7a, 0xab, 0x85, 0xb5, 0x67, 0xb6, 0xcc, 0xd4,
        0x1a, 0xd3, 0x12, 0x45, 0x1b, 0x94, 0x8a, 0x74, 0x13, 0xf0, 0xa1, 0x42, 0xfd, 0x40, 0xd4,
        0x93, 0x47,
    ]
}

/// The ommers hash of a block without ommers.
pub fn empty_ommer_root() -> (r: B256)
    ensures
        r@ == empty_ommer_root_bytes(),
{
    let r = B256(
        [
            0x1d, 0xcc, 0x4d, 0xe8, 0xde, 0xc7, 0x5d, 0x7a, 0xab, 0x85, 0xb5, 0x67, 0xb6, 0xcc, 0xd4,
            0x1a, 0xd3, 0x12, 0x45, 0x1b, 0x94, 0x8a, 0x74, 0x13, 0xf0, 0xa1, 0x42, 0xfd, 0x40, 0xd4,
            0x93, 0x47,
        ],
    );
    assert(r@ =~= empty_ommer_root_bytes());
    r
}

/// A block header.
#[derive(Clone, Debug)]
pub struct Header {
    pub parent_hash: B256,
    pub ommers_hash: B256,
    pub beneficiary: Address,
    pub state_root: B256,
    pub transactions_root: B256,
    pub receipts_root: B256,
    pub withdrawals_root: Option<B256>,
    pub difficulty: U256,
    pub number: u64,
    pub gas_limit: u64,
    pub gas_used: u64,
    pub timestamp: u64,
    pub mix_hash: B256,
    pub nonce: u64,
    pub base_fee_per_gas: Option<u64>,
    pub extra_data: Vec<u8>,
}

/// The base fee that the fee-market formula asks of the child of a block that
/// used `gas_used` of `gas_limit` at `base_fee`. A child above the target pays
/// more, by at least one; one below it pays less. `None` where the formula has
/// no value: a gas target of zero under gas used, or a fee past `u64::MAX`.
pub open spec fn next_base_fee(gas_used: u64, gas_limit: u64, base_fee: u64) -> Option<u64> {
    let target = gas_limit / EIP1559_ELASTICITY_MULTIPLIER;
    if gas_used == target {
        Some(base_fee)
    } else if target == 0 {
        None
    } else if gas_used > target {
        let q = base_fee as int * (gas_used - target) / target as int
            / EIP1559_BASE_FEE_MAX_CHANGE_DENOMINATOR as int;
        let delta = if q < 1 { 1 } else { q };
        if base_fee + delta <= u64::MAX {
            Some((base_fee + delta) as u64)
        } else {
            None
        }
    } else {
        let delta = base_fee as int * (target - gas_used) / target as int
            / EIP1559_BASE_FEE_MAX_CHANGE_DENOMINATOR as int;
        Some(
            if base_fee >= delta {
                (base_fee - delta) as u64
            } else {
                0
            },
        )
    }
}

proof fn lemma_product_fits(a: u64, b: u64)
    ensures
        a as int * b as int <= u128::MAX,
        a as int * b as int >= 0,
{
    assert(a as int * b as int <= u64::MAX as int * u64::MAX as int) by (nonlinear_arith);
    assert(a as int * b as int >= 0) by (nonlinear_arith);
}

impl Header {
    /// The base fee of the child of this header, where the header has one.
    pub open spec fn spec_next_block_base_fee(&self) -> Option<u64> {
        match self.base_fee_per_gas {
            Some(fee) => next_base_fee(self.gas_used, self.gas_limit, fee),
            None => None,
        }
    }

    /// The base fee that the fee-market formula asks of this block's child.
    pub fn next_block_base_fee(&self) -> (r: Option<u64>)
        ensures
            r == self.spec_next_block_base_fee(),
    {
        match self.base_fee_per_gas {
            Some(fee) => calculate_next_block_base_fee(self.gas_used, self.gas_limit, fee),
            None => None,
        }
    }
}

/// The fee-market base fee of the child of a block; see [`next_base_fee`].
pub fn calculate_next_block_base_fee(gas_used: u64, gas_limit: u64, base_fee: u64) -> (r: Option<
    u64,
>)
    ensures
        r == next_base_fee(gas_used, gas_limit, base_fee),
{
    let target = gas_limit / EIP1559_ELASTICITY_MULTIPLIER;
    if gas_used == target {
        return Some(base_fee);
    }
    if target == 0 {
        return None;
    }
    if gas_used > target {
        let used_delta = gas_used - target;
        proof {
            lemma_product_fits(base_fee, used_delta);
        }
        let q = (base_fee as u128 * used_delta as u128) / target as u128
            / EIP1559_BASE_FEE_MAX_CHANGE_DENOMINATOR as u128;
        let delta = if q < 1 {
            1
        } else {
            q
        };
        if delta <= (u64::MAX - base_fee) as u128 {
            Some(base_fee + delta as u64)
        } else {
            None
        }
    } else {
        let used_delta = target - gas_used;
        proof {
            lemma_product_fits(base_fee, used_delta);
        }
        let delta = (base_fee as u128 * used_delta as u128) / target as u128
            / EIP1559_BASE_FEE_MAX_CHANGE_DENOMINATOR as u128;
        if base_fee as u128 >= delta {
            Some(base_fee - delta as u64)
        } else {
            Some(0)
        }
    }
}

/// A header together with its hash.
#[derive(Clone, Debug)]
pub struct SealedHeader {
    pub header: Header,
    pub hash: B256,
}

/// A withdrawal from the beacon chain.
#[derive(Clone, Copy, Debug, PartialEq, Eq)]
pub struct Withdrawal {
    pub index: u64,
    pub validator_index: u64,
    pub address: Address,
    pub amount: u64,
}

/// A signed transaction in its encoded form.
#[derive(Clone, Debug)]
pub struct TransactionSigned {
    pub hash: B256,
    pub encoded: Vec<u8>,
}

/// A sealed block: its header with hash, and its body.
#[derive(Clone, Debug)]
pub struct SealedBlock {
    pub header: SealedHeader,
    pub body: Vec<TransactionSigned>,
    pub ommers: Vec<Header>,
    pub withdrawals: Option<Vec<Withdrawal>>,
}

/// A sealed block with the recovered sender of each transaction.
#[derive(Clone, Debug)]
pub struct SealedBlockWithSenders {
    pub block: SealedBlock,
    pub senders: Vec<Address>,
}

impl SealedBlockWithSenders {
    pub open spec fn number(&self) -> u64 {
        self.block.header.header.number
    }
}

/// The roots computed from a block's body: of its ommers, its transactions and,
/// where it carries them, its withdrawals.
#[derive(Clone, Copy, Debug)]
pub struct BodyRoots {
    pub ommers_root: B256,
    pub transactions_root: B256,
    pub withdrawals_root: Option<B256>,
}

} // verus!
