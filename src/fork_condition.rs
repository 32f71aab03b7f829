//! When a hardfork turns on: at a block, at a terminal total difficulty, at a
//! timestamp, or never.
use vstd::prelude::*;
use crate::primitives::{Head, U256};

verus! {

/// The condition under which a fork is activated.
#[derive(Clone, Copy, Debug, PartialEq, Eq)]
pub enum ForkCondition {
    /// Active from the given block number on.
    Block(u64),
    /// Active once the total difficulty of the parent reaches `total_difficulty`.
    TTD {
        /// The block at which the difficulty was reached, where it is known.
        fork_block: Option<u64>,
        total_difficulty: U256,
    },
    /// Active from the given timestamp on.
    Timestamp(u64),
    /// Never active.
    Never,
}

impl ForkCondition {
    pub open spec fn spec_active_at_block(self, n: u64) -> bool {
        match self {
            ForkCondition::Block(b) => n >= b,
            ForkCondition::TTD { fork_block: Some(b), .. } => n >= b,
            _ => false,
        }
    }

    pub open spec fn spec_transitions_at_block(self, n: u64) -> bool {
        match self {
            ForkCondition::Block(b) => n == b,
            _ => false,
        }
    }

    /// The difficulty of the parent, `ttd - difficulty` saturated at zero, has
    /// reached the threshold.
    pub open spec fn spec_active_at_ttd(self, ttd: U256, difficulty: U256) -> bool {
        match self {
            ForkCondition::TTD { total_difficulty, .. } => {
                let parent = if ttd.value() >= difficulty.value() {
                    ttd.value() - difficulty.value()
                } else {
                    0
                };
                parent >= total_difficulty.value()
            },
            _ => false,
        }
    }

    pub open spec fn spec_active_at_timestamp(self, t: u64) -> bool {
        match self {
            ForkCondition::Timestamp(at) => t >= at,
            _ => false,
        }
    }

    pub open spec fn spec_active_at_head(self, head: Head) -> bool {
        self.spec_active_at_block(head.number) || self.spec_active_at_timestamp(head.timestamp)
            || self.spec_active_at_ttd(head.total_difficulty, head.difficulty)
    }

    /// Whether the condition is timestamp based.
    pub fn is_timestamp(&self) -> (r: bool)
        ensures
            r == (*self is Timestamp),
    {
        match self {
            ForkCondition::Timestamp(_) => true,
            _ => false,
        }
    }

    /// Whether the fork is active at block `current_block`. A difficulty
    /// condition counts only where its activation block is known; a timestamp
    /// condition never does.
    pub fn active_at_block(&self, current_block: u64) -> (r: bool)
        ensures
            r == self.spec_active_at_block(current_block),
    {
        match self {
            ForkCondition::Block(block) => current_block >= *block,
            ForkCondition::TTD { fork_block: Some(block), .. } => current_block >= *block,
            _ => false,
        }
    }

    /// Whether `current_block` is the one block at which a block-based fork
    /// turns on.
    pub fn transitions_at_block(&self, current_block: u64) -> (r: bool)
        ensures
            r == self.spec_transitions_at_block(current_block),
    {
        match self {
            ForkCondition::Block(block) => current_block == *block,
            _ => false,
        }
    }

    /// Whether a difficulty-based fork is active for a block of `difficulty`
    /// whose total difficulty is `ttd`: the parent's total difficulty,
    /// `ttd - difficulty` saturated at zero, must reach the threshold.
    pub fn active_at_ttd(&self, ttd: U256, difficulty: U256) -> (r: bool)
        ensures
            r == self.spec_active_at_ttd(ttd, difficulty),
    {
        match self {
            ForkCondition::TTD { total_difficulty, .. } => {
                ttd.saturating_sub(&difficulty).ge(total_difficulty)
            },
            _ => false,
        }
    }

    /// Whether a timestamp-based fork is active at `timestamp`.
    pub fn active_at_timestamp(&self, timestamp: u64) -> (r: bool)
        ensures
            r == self.spec_active_at_timestamp(timestamp),
    {
        match self {
            ForkCondition::Timestamp(time) => timestamp >= *time,
            _ => false,
        }
    }

    /// Whether the fork is active at `head`, by its number, its timestamp or
    /// its total difficulty.
    pub fn active_at_head(&self, head: &Head) -> (r: bool)
        ensures
            r == self.spec_active_at_head(*head),
    {
        self.active_at_block(head.number) || self.active_at_timestamp(head.timestamp)
            || self.active_at_ttd(head.total_difficulty, head.difficulty)
    }

    /// The terminal total difficulty of a difficulty-based condition.
    pub fn ttd(&self) -> (r: Option<U256>)
        ensures
            r == match *self {
                ForkCondition::TTD { total_difficulty, .. } => Some(total_difficulty),
                _ => None::<U256>,
            },
    {
        match self {
            ForkCondition::TTD { total_difficulty, .. } => Some(*total_difficulty),
            _ => None,
        }
    }

    /// The activation timestamp of a timestamp-based condition.
    pub fn as_timestamp(&self) -> (r: Option<u64>)
        ensures
            r == match *self {
                ForkCondition::Timestamp(t) => Some(t),
                _ => None::<u64>,
            },
    {
        match self {
            ForkCondition::Timestamp(t) => Some(*t),
            _ => None,
        }
    }

    /// `head` is the least head at which the condition holds: its activation
    /// block, timestamp or total difficulty, every other field zero.
    pub open spec fn is_activation_head(self, head: Head) -> bool {
        &&& head.hash@ == Seq::new(32, |i: int| 0u8)
        &&& head.difficulty.value() == 0
        &&& match self {
            ForkCondition::Block(n) => head.number == n && head.timestamp == 0
                && head.total_difficulty.value() == 0,
            ForkCondition::Timestamp(t) => head.number == 0 && head.timestamp == t
                && head.total_difficulty.value() == 0,
            ForkCondition::TTD { total_difficulty, .. } => head.number == 0 && head.timestamp == 0
                && head.total_difficulty == total_difficulty,
            ForkCondition::Never => false,
        }
    }

    /// The least head at which the condition holds.
    pub fn satisfy(&self) -> (r: Head)
        requires
            !(*self is Never),
        ensures
            self.is_activation_head(r),
            self.spec_active_at_head(r),
    {
        let mut head = Head::zeroed();
        match *self {
            ForkCondition::Block(number) => {
                head.number = number;
            },
            ForkCondition::Timestamp(timestamp) => {
                head.timestamp = timestamp;
            },
            ForkCondition::TTD { total_difficulty, .. } => {
                head.total_difficulty = total_difficulty;
            },
            ForkCondition::Never => {},
        }
        head
    }
}

impl Default for ForkCondition {
    fn default() -> (r: ForkCondition)
        ensures
            r == ForkCondition::Never,
    {
        ForkCondition::Never
    }
}

/// Law: a block condition is off before its block, on at it and after it, and
/// transitions at exactly that block.
pub proof fn lemma_block_condition_boundary(n: u64, m: u64)
    ensures
        n > 0 ==> !ForkCondition::Block(n).spec_active_at_block((n - 1) as u64),
        ForkCondition::Block(n).spec_active_at_block(n),
        n < u64::MAX ==> ForkCondition::Block(n).spec_active_at_block((n + 1) as u64),
        ForkCondition::Block(n).spec_transitions_at_block(m) <==> m == n,
        m >= n <==> ForkCondition::Block(n).spec_active_at_block(m),
{
}

/// Law: a difficulty condition compares the saturating difference of the two
/// difficulties with its threshold; where the block's own difficulty exceeds
/// the total, the difference is zero.
pub proof fn lemma_ttd_condition_saturates(
    fork_block: Option<u64>,
    threshold: U256,
    ttd: U256,
    difficulty: U256,
)
    ensures
        ({
            let c = ForkCondition::TTD { fork_block, total_difficulty: threshold };
            let parent = if ttd.value() >= difficulty.value() {
                ttd.value() - difficulty.value()
            } else {
                0
            };
            &&& c.spec_active_at_ttd(ttd, difficulty) == (parent >= threshold.value())
            &&& ttd.value() < difficulty.value() ==> (c.spec_active_at_ttd(ttd, difficulty)
                <==> threshold.value() == 0)
        }),
{
}

/// Timestamps of the forks that the chain caches for quick checks.
#[derive(Clone, Copy, Debug, PartialEq, Eq)]
pub struct ForkTimestamps {
    /// The timestamp of the Shanghai fork.
    pub shanghai: Option<u64>,
}

impl ForkTimestamps {
    pub fn new() -> (r: ForkTimestamps)
        ensures
            (r.shanghai is None),
    {
        ForkTimestamps { shanghai: None }
    }

    /// Sets the Shanghai timestamp.
    pub fn shanghai(self, shanghai: u64) -> (r: ForkTimestamps)
        ensures
            r.shanghai == Some(shanghai),
    {
        let mut s = self;
        s.shanghai = Some(shanghai);
        s
    }
}

impl Default for ForkTimestamps {
    fn default() -> (r: ForkTimestamps)
        ensures
            (r.shanghai is None),
    {
        ForkTimestamps { shanghai: None }
    }
}

} // verus!
