//! The chain specification: the chain's id, its genesis and the condition
//! under which each hardfork activates, with the rules derived from them.
use vstd::prelude::*;
use crate::block::{Header, SealedHeader, EIP1559_INITIAL_BASE_FEE, empty_ommer_root, empty_ommer_root_bytes};
use crate::chain_id::{Chain, LEGACY_EXTRA_DATA_EXEMPT_ID};
use crate::fork_condition::{ForkCondition, ForkTimestamps};
use crate::forkid::{
    ForkFilter, ForkFilterKey, ForkHash, ForkId, be_bytes, crc32, crc32_of, hash_bytes,
    push_be_bytes,
};
use crate::hardfork::Hardfork;
use crate::primitives::{Address, B256, Head, U256};

verus! {

/// The bytes of the root of an empty trie.
pub open spec fn empty_root_bytes() -> Seq<u8> {
    seq![
        0x56u8, 0xe8, 0x1f, 0x17, 0x1b, 0xcc, 0x55, 0xa6, 0xff, 0x83, 0x45, 0xe6, 0x92, 0xc0, 0xf8,
        0x6e, 0x5b, 0x48, 0xe0, 0x1b, 0x99, 0x6c, 0xad, 0xc0, 0x01, 0x62, 0x2f, 0xb5, 0xe3, 0x63,
        0xb4, 0x21,
    ]
}

/// The root of an empty trie.
pub fn empty_root() -> (r: B256)
    ensures
        r@ == empty_root_bytes(),
{
    let r = B256(
        [
            0x56, 0xe8, 0x1f, 0x17, 0x1b, 0xcc, 0x55, 0xa6, 0xff, 0x83, 0x45, 0xe6, 0x92, 0xc0, 0xf8,
            0x6e, 0x5b, 0x48, 0xe0, 0x1b, 0x99, 0x6c, 0xad, 0xc0, 0x01, 0x62, 0x2f, 0xb5, 0xe3, 0x63,
            0xb4, 0x21,
        ],
    );
    assert(r@ =~= empty_root_bytes());
    r
}

/// The genesis block's parameters, with the hash of its header and the root
/// of its state as the genesis loader computed them.
#[derive(Clone, Debug)]
pub struct Genesis {
    pub hash: B256,
    pub state_root: B256,
    pub nonce: u64,
    pub timestamp: u64,
    pub extra_data: Vec<u8>,
    pub gas_limit: u64,
    pub difficulty: U256,
    pub mix_hash: B256,
    pub coinbase: Address,
}

/// The value that identifies a fork's activation in fork ids, for the
/// conditions that have one.
pub open spec fn fork_value(c: ForkCondition) -> Option<u64> {
    match c {
        ForkCondition::Block(b) => Some(b),
        ForkCondition::Timestamp(t) => Some(t),
        ForkCondition::TTD { fork_block: Some(b), .. } => Some(b),
        _ => None,
    }
}

/// The key of a fork in a fork filter, for the conditions that have one.
pub open spec fn filter_key(c: ForkCondition) -> Option<ForkFilterKey> {
    match c {
        ForkCondition::Block(b) => Some(ForkFilterKey::Block(b)),
        ForkCondition::Timestamp(t) => Some(ForkFilterKey::Time(t)),
        ForkCondition::TTD { fork_block: Some(b), .. } => Some(ForkFilterKey::Block(b)),
        _ => None,
    }
}

/// The condition of the first entry for `fork` at or after position `i`,
/// `Never` where there is none.
pub open spec fn lookup_from(forks: Seq<(Hardfork, ForkCondition)>, fork: Hardfork, i: int) -> ForkCondition
    decreases forks.len() - i,
{
    if i < 0 || i >= forks.len() {
        ForkCondition::Never
    } else if forks[i].0 == fork {
        forks[i].1
    } else {
        lookup_from(forks, fork, i + 1)
    }
}

/// Scans the forks from position `i` in order. While they are active at
/// `head`, each new activation value is appended to `input`; the scan stops
/// at the first inactive fork with a value, which is the next one. Gives the
/// bytes that are hashed and the next activation value, zero for none.
pub open spec fn fork_id_scan(
    forks: Seq<(Hardfork, ForkCondition)>,
    head: Head,
    i: int,
    input: Seq<u8>,
    current: u64,
) -> (Seq<u8>, u64)
    decreases forks.len() - i,
{
    if i < 0 || i >= forks.len() {
        (input, 0)
    } else {
        let cond = forks[i].1;
        match fork_value(cond) {
            None => fork_id_scan(forks, head, i + 1, input, current),
            Some(value) => if cond.spec_active_at_head(head) {
                if value != current {
                    fork_id_scan(forks, head, i + 1, input + be_bytes(value), value)
                } else {
                    fork_id_scan(forks, head, i + 1, input, current)
                }
            } else {
                (input, value)
            },
        }
    }
}

/// The filter keys of the forks from position `i` on, in order.
pub open spec fn filter_keys_from(forks: Seq<(Hardfork, ForkCondition)>, i: int) -> Seq<
    ForkFilterKey,
>
    decreases forks.len() - i,
{
    if i < 0 || i >= forks.len() {
        Seq::empty()
    } else {
        match filter_key(forks[i].1) {
            Some(k) => seq![k] + filter_keys_from(forks, i + 1),
            None => filter_keys_from(forks, i + 1),
        }
    }
}

/// The condition of the first entry for `fork` in `forks`, `Never` where there
/// is none.
pub fn condition_in(forks: &Vec<(Hardfork, ForkCondition)>, fork: Hardfork) -> (r: ForkCondition)
    ensures
        r == lookup_from(forks@, fork, 0),
{
    let n = forks.len();
    let mut i: usize = 0;
    while i < n
        invariant
            i <= n,
            n == forks@.len(),
            lookup_from(forks@, fork, i as int) == lookup_from(forks@, fork, 0),
        decreases n - i,
    {
        let (f, c) = forks[i];
        if f == fork {
            return c;
        }
        i = i + 1;
    }
    ForkCondition::Never
}

/// The position at which an entry for `fork` belongs in the ordered `forks`:
/// the first entry, from `i` on, of a fork no earlier than it.
pub open spec fn slot_from(forks: Seq<(Hardfork, ForkCondition)>, fork: Hardfork, i: int) -> int
    decreases forks.len() - i,
{
    if i < 0 || i >= forks.len() {
        forks.len() as int
    } else if forks[i].0.spec_rank() >= fork.spec_rank() {
        i
    } else {
        slot_from(forks, fork, i + 1)
    }
}

/// `forks` with `fork` set to `condition`: the entry for it replaced where
/// there is one, else a new entry at its place in activation order.
pub open spec fn with_entry(
    forks: Seq<(Hardfork, ForkCondition)>,
    fork: Hardfork,
    condition: ForkCondition,
) -> Seq<(Hardfork, ForkCondition)> {
    let i = slot_from(forks, fork, 0);
    if i < forks.len() && forks[i].0 == fork {
        forks.update(i, (fork, condition))
    } else {
        forks.insert(i, (fork, condition))
    }
}

/// A chain specification.
#[derive(Clone, Debug)]
pub struct ChainSpec {
    pub chain: Chain,
    pub genesis: Genesis,
    /// The block at which Paris activated and the final difficulty there.
    pub paris_block_and_final_difficulty: Option<(u64, U256)>,
    /// Caches the activation timestamps held in `hardforks`.
    pub fork_timestamps: ForkTimestamps,
    /// The forks and their activation conditions: one entry per fork, in
    /// activation order (see [`ChainSpec::wf`]), which is the order fork ids
    /// and fork filters are built in. Kept as an ordered vector, which the
    /// builder maintains; a map keyed by the fork name would need an ordering
    /// of names that contracts can speak of.
    pub hardforks: Vec<(Hardfork, ForkCondition)>,
}

impl ChainSpec {
    /// A valid specification lists its forks once each, in activation order.
    pub open spec fn wf(&self) -> bool {
        Self::forks_ordered(self.hardforks@)
    }

    /// The condition of `fork`: that of its entry, else `Never`.
    pub open spec fn spec_fork(&self, fork: Hardfork) -> ForkCondition {
        lookup_from(self.hardforks@, fork, 0)
    }

    /// Each fork has at most one entry, and entries run in activation order.
    pub open spec fn forks_ordered(forks: Seq<(Hardfork, ForkCondition)>) -> bool {
        forall|i: int, j: int|
            0 <= i < j < forks.len() ==> forks[i].0.spec_rank() < forks[j].0.spec_rank()
    }

    pub open spec fn spec_fork_id(&self, head: Head) -> (Seq<u8>, u64) {
        fork_id_scan(self.hardforks@, head, 0, self.genesis.hash@, 0)
    }

    pub fn chain(&self) -> (r: Chain)
        ensures
            r == self.chain,
    {
        self.chain
    }

    pub fn genesis(&self) -> (r: &Genesis)
        ensures
            r == &self.genesis,
    {
        &self.genesis
    }

    pub fn hardforks(&self) -> (r: &Vec<(Hardfork, ForkCondition)>)
        ensures
            r == &self.hardforks,
    {
        &self.hardforks
    }

    /// The hash of the genesis block.
    pub fn genesis_hash(&self) -> (r: B256)
        ensures
            r == self.genesis.hash,
    {
        self.genesis.hash
    }

    /// Whether the chain's headers are exempt from the extra-data limit before
    /// the merge: true of one legacy test network only.
    pub fn extra_data_exempt_before_merge(&self) -> (r: bool)
        ensures
            r == (self.chain.spec_id() == LEGACY_EXTRA_DATA_EXEMPT_ID),
    {
        self.chain.id() == LEGACY_EXTRA_DATA_EXEMPT_ID
    }

    /// The activation condition of `fork`, `Never` where the spec has none.
    pub fn fork(&self, fork: Hardfork) -> (r: ForkCondition)
        ensures
            r == self.spec_fork(fork),
    {
        condition_in(&self.hardforks, fork)
    }

    /// The forks with their activation conditions, in order.
    pub fn forks_iter(&self) -> (r: Vec<(Hardfork, ForkCondition)>)
        ensures
            r@ == self.hardforks@,
    {
        let n = self.hardforks.len();
        let mut r: Vec<(Hardfork, ForkCondition)> = Vec::new();
        let mut i: usize = 0;
        while i < n
            invariant
                i <= n,
                n == self.hardforks@.len(),
                r@ == self.hardforks@.subrange(0, i as int),
            decreases n - i,
        {
            r.push(self.hardforks[i]);
            i = i + 1;
            assert(r@ =~= self.hardforks@.subrange(0, i as int));
        }
        assert(self.hardforks@.subrange(0, n as int) =~= self.hardforks@);
        r
    }

    /// Whether `fork` is active at `timestamp`.
    pub fn is_fork_active_at_timestamp(&self, fork: Hardfork, timestamp: u64) -> (r: bool)
        ensures
            r == self.spec_fork(fork).spec_active_at_timestamp(timestamp),
    {
        self.fork(fork).active_at_timestamp(timestamp)
    }

    /// Whether Shanghai is active at `timestamp`, by the cached timestamp where
    /// there is one.
    pub fn is_shanghai_activated_at_timestamp(&self, timestamp: u64) -> (r: bool)
        ensures
            r == match self.fork_timestamps.shanghai {
                Some(t) => timestamp >= t,
                None => self.spec_fork(Hardfork::Shanghai).spec_active_at_timestamp(timestamp),
            },
    {
        match self.fork_timestamps.shanghai {
            Some(t) => timestamp >= t,
            None => self.is_fork_active_at_timestamp(Hardfork::Shanghai, timestamp),
        }
    }

    /// The base fee of the genesis block: the initial one where London is
    /// active at block zero.
    pub fn initial_base_fee(&self) -> (r: Option<u64>)
        ensures
            r == if self.spec_fork(Hardfork::London).spec_active_at_block(0) {
                Some(EIP1559_INITIAL_BASE_FEE)
            } else {
                None::<u64>
            },
    {
        if self.fork(Hardfork::London).active_at_block(0) {
            Some(EIP1559_INITIAL_BASE_FEE)
        } else {
            None
        }
    }

    /// The final difficulty of the chain, for blocks at or after Paris.
    pub fn final_paris_difficulty(&self, block_number: u64) -> (r: Option<U256>)
        ensures
            r == match self.paris_block_and_final_difficulty {
                Some((at, d)) => if block_number >= at {
                    Some(d)
                } else {
                    None::<U256>
                },
                None => None::<U256>,
            },
    {
        match self.paris_block_and_final_difficulty {
            Some((activated_at, final_difficulty)) => {
                if block_number >= activated_at {
                    Some(final_difficulty)
                } else {
                    None
                }
            },
            None => None,
        }
    }

    /// The header of the genesis block.
    pub fn genesis_header(&self) -> (r: Header)
        ensures
            r.number == 0,
            r.parent_hash@ == Seq::new(32, |i: int| 0u8),
            r.ommers_hash@ == empty_ommer_root_bytes(),
            r.transactions_root@ == empty_root_bytes(),
            r.receipts_root@ == empty_root_bytes(),
            r.gas_limit == self.genesis.gas_limit,
            r.gas_used == 0,
            r.difficulty == self.genesis.difficulty,
            r.nonce == self.genesis.nonce,
            r.extra_data@ == self.genesis.extra_data@,
            r.state_root == self.genesis.state_root,
            r.timestamp == self.genesis.timestamp,
            r.mix_hash == self.genesis.mix_hash,
            r.beneficiary == self.genesis.coinbase,
            r.base_fee_per_gas == (if self.spec_fork(Hardfork::London).spec_active_at_block(0) {
                Some(EIP1559_INITIAL_BASE_FEE)
            } else {
                None::<u64>
            }),
            r.withdrawals_root is Some <==> self.spec_fork(
                Hardfork::Shanghai,
            ).spec_active_at_timestamp(self.genesis.timestamp),
            r.withdrawals_root matches Some(w) ==> w@ == empty_root_bytes(),
    {
        let base_fee_per_gas = self.initial_base_fee();
        let withdrawals_root = if self.fork(Hardfork::Shanghai).active_at_timestamp(
            self.genesis.timestamp,
        ) {
            Some(empty_root())
        } else {
            None
        };
        Header {
            parent_hash: B256::zero(),
            ommers_hash: empty_ommer_root(),
            beneficiary: self.genesis.coinbase,
            state_root: self.genesis.state_root,
            transactions_root: empty_root(),
            receipts_root: empty_root(),
            withdrawals_root,
            difficulty: self.genesis.difficulty,
            number: 0,
            gas_limit: self.genesis.gas_limit,
            gas_used: 0,
            timestamp: self.genesis.timestamp,
            mix_hash: self.genesis.mix_hash,
            nonce: self.genesis.nonce,
            base_fee_per_gas,
            extra_data: self.genesis.extra_data.clone(),
        }
    }

    /// The genesis header sealed with the genesis hash.
    pub fn sealed_genesis_header(&self) -> (r: SealedHeader)
        ensures
            r.hash == self.genesis.hash,
            r.header.number == 0,
            r.header.state_root == self.genesis.state_root,
            r.header.timestamp == self.genesis.timestamp,
    {
        SealedHeader { header: self.genesis_header(), hash: self.genesis_hash() }
    }

    /// The fork filter inputs for `head`: the key of every fork that has one,
    /// in order; a difficulty fork without a known block has none.
    pub fn fork_filter(&self, head: Head) -> (r: ForkFilter)
        requires
            self.wf(),
        ensures
            r.head == head,
            r.genesis_hash == self.genesis.hash,
            r.forks@ == filter_keys_from(self.hardforks@, 0),
    {
        let n = self.hardforks.len();
        let mut keys: Vec<ForkFilterKey> = Vec::new();
        let mut i: usize = n;
        while i > 0
            invariant
                i <= n,
                n == self.hardforks@.len(),
                keys@.reverse() == filter_keys_from(self.hardforks@, i as int),
            decreases i,
        {
            i = i - 1;
            let key = match self.hardforks[i].1 {
                ForkCondition::Block(b) => Some(ForkFilterKey::Block(b)),
                ForkCondition::Timestamp(t) => Some(ForkFilterKey::Time(t)),
                ForkCondition::TTD { fork_block: Some(b), .. } => Some(ForkFilterKey::Block(b)),
                _ => None,
            };
            match key {
                Some(k) => {
                    keys.push(k);
                },
                None => {},
            }
            assert(keys@.reverse() =~= filter_keys_from(self.hardforks@, i as int));
        }
        let mut forks: Vec<ForkFilterKey> = Vec::new();
        let mut j: usize = keys.len();
        while j > 0
            invariant
                j <= keys@.len(),
                forks@ == keys@.reverse().subrange(0, keys@.len() - j),
            decreases j,
        {
            j = j - 1;
            forks.push(keys[j]);
            assert(forks@ =~= keys@.reverse().subrange(0, keys@.len() - j));
        }
        assert(keys@.reverse().subrange(0, keys@.len() as int) =~= keys@.reverse());
        ForkFilter { head, genesis_hash: self.genesis.hash, forks }
    }

    /// The fork id at `head`: the checksum of the genesis hash and of each
    /// distinct activation value passed, and the next activation value.
    pub fn fork_id(&self, head: &Head) -> (r: ForkId)
        requires
            self.wf(),
        ensures
            r.hash == ForkHash(crc32_of(self.spec_fork_id(*head).0)),
            r.next == self.spec_fork_id(*head).1,
    {
        let mut input = hash_bytes(&self.genesis.hash);
        let mut current: u64 = 0;
        let n = self.hardforks.len();
        let mut i: usize = 0;
        while i < n
            invariant
                i <= n,
                n == self.hardforks@.len(),
                fork_id_scan(self.hardforks@, *head, i as int, input@, current)
                    == self.spec_fork_id(*head),
            decreases n - i,
        {
            let cond = self.hardforks[i].1;
            let value = match cond {
                ForkCondition::Block(b) => Some(b),
                ForkCondition::Timestamp(t) => Some(t),
                ForkCondition::TTD { fork_block: Some(b), .. } => Some(b),
                _ => None,
            };
            match value {
                None => {},
                Some(v) => {
                    if cond.active_at_head(head) {
                        if v != current {
                            push_be_bytes(&mut input, v);
                            current = v;
                        }
                    } else {
                        return ForkId { hash: ForkHash(crc32(&input)), next: v };
                    }
                },
            }
            i = i + 1;
        }
        ForkId { hash: ForkHash(crc32(&input)), next: 0 }
    }
}

impl ForkTimestamps {
    /// The timestamps of the timestamp-based forks among `forks`.
    pub fn from_hardforks(forks: &Vec<(Hardfork, ForkCondition)>) -> (r: ForkTimestamps)
        ensures
            r.shanghai == match lookup_from(forks@, Hardfork::Shanghai, 0) {
                ForkCondition::Timestamp(t) => Some(t),
                _ => None::<u64>,
            },
    {
        let mut timestamps = ForkTimestamps::new();
        match condition_in(forks, Hardfork::Shanghai).as_timestamp() {
            Some(shanghai) => {
                timestamps = timestamps.shanghai(shanghai);
            },
            None => {},
        }
        timestamps
    }
}

fn copy_bytes(v: &Vec<u8>) -> (r: Vec<u8>)
    ensures
        r@ == v@,
{
    let mut r: Vec<u8> = Vec::new();
    let mut i: usize = 0;
    while i < v.len()
        invariant
            i <= v@.len(),
            r@ == v@.subrange(0, i as int),
        decreases v@.len() - i,
    {
        r.push(v[i]);
        i = i + 1;
        assert(r@ =~= v@.subrange(0, i as int));
    }
    assert(v@.subrange(0, v@.len() as int) =~= v@);
    r
}

impl Genesis {
    /// A copy of the genesis parameters.
    pub fn duplicate(&self) -> (r: Genesis)
        ensures
            r.hash == self.hash && r.state_root == self.state_root && r.nonce == self.nonce
                && r.timestamp == self.timestamp && r.gas_limit == self.gas_limit
                && r.difficulty == self.difficulty && r.mix_hash == self.mix_hash
                && r.coinbase == self.coinbase,
            r.extra_data@ == self.extra_data@,
    {
        Genesis {
            hash: self.hash,
            state_root: self.state_root,
            nonce: self.nonce,
            timestamp: self.timestamp,
            extra_data: copy_bytes(&self.extra_data),
            gas_limit: self.gas_limit,
            difficulty: self.difficulty,
            mix_hash: self.mix_hash,
            coinbase: self.coinbase,
        }
    }
}

impl Default for Genesis {
    fn default() -> (r: Genesis)
        ensures
            r.nonce == 0 && r.timestamp == 0 && r.gas_limit == 0 && r.extra_data@.len() == 0,
            r.difficulty.value() == 0,
    {
        Genesis {
            hash: B256::zero(),
            state_root: B256::zero(),
            nonce: 0,
            timestamp: 0,
            extra_data: Vec::new(),
            gas_limit: 0,
            difficulty: U256::zero(),
            mix_hash: B256::zero(),
            coinbase: Address([0u8; 20]),
        }
    }
}

/// Two forks of the same rank are the same fork.
proof fn lemma_rank_injective(a: Hardfork, b: Hardfork)
    ensures
        a.spec_rank() == b.spec_rank() ==> a == b,
{
}

/// Where an entry for `fork` belongs: every entry before the slot is of an
/// earlier fork, and the entry at the slot, if any, is of no earlier one.
proof fn lemma_slot_bounds(forks: Seq<(Hardfork, ForkCondition)>, fork: Hardfork, i: int)
    requires
        0 <= i <= forks.len(),
    ensures
        i <= slot_from(forks, fork, i) <= forks.len(),
        forall|k: int|
            i <= k < slot_from(forks, fork, i) ==> (#[trigger] forks[k]).0.spec_rank()
                < fork.spec_rank(),
        slot_from(forks, fork, i) < forks.len() ==> forks[slot_from(forks, fork, i)].0.spec_rank()
            >= fork.spec_rank(),
    decreases forks.len() - i,
{
    if i < forks.len() && forks[i].0.spec_rank() < fork.spec_rank() {
        lemma_slot_bounds(forks, fork, i + 1);
    }
}

/// Setting a fork in an ordered list keeps it ordered.
proof fn lemma_with_entry_ordered(
    s: Seq<(Hardfork, ForkCondition)>,
    fork: Hardfork,
    condition: ForkCondition,
)
    requires
        ChainSpec::forks_ordered(s),
    ensures
        ChainSpec::forks_ordered(with_entry(s, fork, condition)),
{
    lemma_slot_bounds(s, fork, 0);
    let i = slot_from(s, fork, 0);
    let t = with_entry(s, fork, condition);
    if i < s.len() && s[i].0 == fork {
        assert(ChainSpec::forks_ordered(t));
    } else {
        if i < s.len() {
            lemma_rank_injective(s[i].0, fork);
        }
        assert(t == s.insert(i, (fork, condition)));
        assert(i < s.len() ==> s[i].0.spec_rank() > fork.spec_rank());
        assert forall|a: int, b: int| 0 <= a < b < t.len() implies t[a].0.spec_rank()
            < t[b].0.spec_rank() by {
            if b < i {
                assert(t[a] == s[a] && t[b] == s[b]);
            } else if b == i {
                assert(t[a] == s[a]);
            } else if a < i {
                assert(t[a] == s[a] && t[b] == s[b - 1]);
                if b - 1 > i {
                    assert(s[i].0.spec_rank() < s[b - 1].0.spec_rank());
                }
            } else if a == i {
                assert(t[b] == s[b - 1]);
                if b - 1 > i {
                    assert(s[i].0.spec_rank() < s[b - 1].0.spec_rank());
                }
            } else {
                assert(t[a] == s[a - 1] && t[b] == s[b - 1]);
            }
        }
    }
}

proof fn lemma_lookup_first(s: Seq<(Hardfork, ForkCondition)>, fork: Hardfork, j: int, i: int)
    requires
        0 <= j <= i < s.len(),
        s[i].0 == fork,
        forall|k: int| j <= k < i ==> (#[trigger] s[k]).0 != fork,
    ensures
        lookup_from(s, fork, j) == s[i].1,
    decreases i - j,
{
    if j < i {
        lemma_lookup_first(s, fork, j + 1, i);
    }
}

proof fn lemma_lookup_none(s: Seq<(Hardfork, ForkCondition)>, fork: Hardfork, j: int)
    requires
        0 <= j <= s.len(),
        forall|k: int| j <= k < s.len() ==> (#[trigger] s[k]).0 != fork,
    ensures
        lookup_from(s, fork, j) == ForkCondition::Never,
    decreases s.len() - j,
{
    if j < s.len() {
        lemma_lookup_none(s, fork, j + 1);
    }
}

/// In an ordered list the condition of a fork is that of its entry, and
/// `Never` where it has none.
pub proof fn lemma_lookup_ordered(s: Seq<(Hardfork, ForkCondition)>, fork: Hardfork)
    requires
        ChainSpec::forks_ordered(s),
    ensures
        forall|i: int|
            0 <= i < s.len() && (#[trigger] s[i]).0 == fork ==> lookup_from(s, fork, 0) == s[i].1,
        (forall|i: int| 0 <= i < s.len() ==> (#[trigger] s[i]).0 != fork) ==> lookup_from(s, fork, 0)
            == ForkCondition::Never,
{
    assert forall|i: int| 0 <= i < s.len() && (#[trigger] s[i]).0 == fork implies lookup_from(
        s,
        fork,
        0,
    ) == s[i].1 by {
        assert forall|k: int| 0 <= k < i implies (#[trigger] s[k]).0 != fork by {
            assert(s[k].0.spec_rank() < s[i].0.spec_rank());
        }
        lemma_lookup_first(s, fork, 0, i);
    }
    if forall|i: int| 0 <= i < s.len() ==> (#[trigger] s[i]).0 != fork {
        lemma_lookup_none(s, fork, 0);
    }
}

/// Law: after setting `fork` to `condition`, looking `fork` up gives
/// `condition`, and every other fork keeps its condition.
pub proof fn lemma_with_entry_lookup(
    s: Seq<(Hardfork, ForkCondition)>,
    fork: Hardfork,
    condition: ForkCondition,
    other: Hardfork,
)
    requires
        ChainSpec::forks_ordered(s),
    ensures
        lookup_from(with_entry(s, fork, condition), other, 0) == if other == fork {
            condition
        } else {
            lookup_from(s, other, 0)
        },
{
    let t = with_entry(s, fork, condition);
    lemma_with_entry_ordered(s, fork, condition);
    lemma_slot_bounds(s, fork, 0);
    lemma_lookup_ordered(s, other);
    lemma_lookup_ordered(t, other);
    let i = slot_from(s, fork, 0);
    let replaced = i < s.len() && s[i].0 == fork;
    assert(t[i] == (fork, condition));
    if other != fork {
        if exists|k: int| 0 <= k < s.len() && (#[trigger] s[k]).0 == other {
            let k = choose|k: int| 0 <= k < s.len() && (#[trigger] s[k]).0 == other;
            if k < i || replaced {
                assert(t[k] == s[k]);
            } else {
                assert(t[k + 1] == s[k]);
            }
        } else {
            assert forall|j: int| 0 <= j < t.len() implies (#[trigger] t[j]).0 != other by {
                if j != i {
                    if j < i || replaced {
                        assert(t[j] == s[j]);
                    } else {
                        assert(t[j] == s[j - 1]);
                    }
                }
            }
        }
    }
}

/// Sets `fork` to `condition` in the ordered `forks`, keeping the order.
pub fn set_fork(forks: &mut Vec<(Hardfork, ForkCondition)>, fork: Hardfork, condition: ForkCondition)
    requires
        ChainSpec::forks_ordered(old(forks)@),
    ensures
        final(forks)@ == with_entry(old(forks)@, fork, condition),
        ChainSpec::forks_ordered(final(forks)@),
{
    let n = forks.len();
    let rank = fork.rank();
    let mut i: usize = 0;
    while i < n
        invariant
            i <= n,
            n == forks@.len(),
            rank as nat == fork.spec_rank(),
            slot_from(forks@, fork, i as int) == slot_from(forks@, fork, 0),
        ensures
            slot_from(forks@, fork, 0) == i as int,
        decreases n - i,
    {
        let (f, _) = forks[i];
        if f.rank() >= rank {
            break;
        }
        i = i + 1;
    }
    proof {
        lemma_with_entry_ordered(forks@, fork, condition);
    }
    if i < n && forks[i].0 == fork {
        forks.set(i, (fork, condition));
    } else {
        forks.insert(i, (fork, condition));
    }
}

impl Hardfork {
    /// The fork id at the head where this fork activates, unless the spec
    /// never activates it.
    pub fn fork_id(&self, spec: &ChainSpec) -> (r: Option<ForkId>)
        requires
            spec.wf(),
        ensures
            r is None <==> spec.spec_fork(*self) is Never,
            r matches Some(id) ==> exists|h: Head|
                spec.spec_fork(*self).is_activation_head(h) && id.hash == ForkHash(
                    crc32_of(#[trigger] spec.spec_fork_id(h).0),
                ) && id.next == spec.spec_fork_id(h).1,
    {
        let condition = spec.fork(*self);
        match condition {
            ForkCondition::Never => None,
            _ => {
                let head = condition.satisfy();
                Some(spec.fork_id(&head))
            },
        }
    }

    /// The fork filter inputs at the head where this fork activates, unless
    /// the spec never activates it.
    pub fn fork_filter(&self, spec: &ChainSpec) -> (r: Option<ForkFilter>)
        requires
            spec.wf(),
        ensures
            r is None <==> spec.spec_fork(*self) is Never,
            r matches Some(f) ==> spec.spec_fork(*self).is_activation_head(f.head)
                && f.genesis_hash == spec.genesis.hash && f.forks@ == filter_keys_from(
                spec.hardforks@,
                0,
            ),
    {
        let condition = spec.fork(*self);
        match condition {
            ForkCondition::Never => None,
            _ => Some(spec.fork_filter(condition.satisfy())),
        }
    }
}

/// Scanning from `i` up to a fork `k` with no activation value before it
/// gives what scanning from `k` gives.
proof fn lemma_scan_skips_unvalued(
    forks: Seq<(Hardfork, ForkCondition)>,
    head: Head,
    i: int,
    k: int,
    input: Seq<u8>,
    current: u64,
)
    requires
        0 <= i <= k < forks.len(),
        forall|j: int| 0 <= j < k ==> fork_value(#[trigger] forks[j].1) is None,
    ensures
        fork_id_scan(forks, head, i, input, current) == fork_id_scan(forks, head, k, input, current),
    decreases k - i,
{
    if i < k {
        lemma_scan_skips_unvalued(forks, head, i + 1, k, input, current);
    }
}

/// Law: at a head before the first configured activation, the fork id is the
/// checksum of the genesis hash alone, and the next activation is the first.
pub proof fn lemma_fork_id_before_first_threshold(spec: ChainSpec, head: Head, k: int)
    requires
        0 <= k < spec.hardforks@.len(),
        forall|j: int| 0 <= j < k ==> fork_value(#[trigger] spec.hardforks@[j].1) is None,
        fork_value(spec.hardforks@[k].1) is Some,
        !spec.hardforks@[k].1.spec_active_at_head(head),
    ensures
        spec.spec_fork_id(head) == (spec.genesis.hash@, fork_value(spec.hardforks@[k].1)->Some_0),
{
    lemma_scan_skips_unvalued(spec.hardforks@, head, 0, k, spec.genesis.hash@, 0);
}

/// Past a removed entry `k`, scanning the full list from `j + 1` and the
/// shortened list from `j` agree.
proof fn lemma_scan_shift(
    forks: Seq<(Hardfork, ForkCondition)>,
    k: int,
    head: Head,
    j: int,
    input: Seq<u8>,
    current: u64,
)
    requires
        0 <= k <= j < forks.len(),
    ensures
        fork_id_scan(forks, head, j + 1, input, current) == fork_id_scan(
            forks.remove(k),
            head,
            j,
            input,
            current,
        ),
    decreases forks.len() - j,
{
    let r = forks.remove(k);
    if j + 1 < forks.len() {
        assert(r[j] == forks[j + 1]);
        let cond = forks[j + 1].1;
        match fork_value(cond) {
            None => lemma_scan_shift(forks, k, head, j + 1, input, current),
            Some(v) => {
                if cond.spec_active_at_head(head) {
                    if v != current {
                        lemma_scan_shift(forks, k, head, j + 1, input + be_bytes(v), v);
                    } else {
                        lemma_scan_shift(forks, k, head, j + 1, input, current);
                    }
                }
            },
        }
    }
}

proof fn lemma_scan_without_never(
    forks: Seq<(Hardfork, ForkCondition)>,
    k: int,
    head: Head,
    i: int,
    input: Seq<u8>,
    current: u64,
)
    requires
        0 <= i <= k < forks.len(),
        forks[k].1 is Never,
    ensures
        fork_id_scan(forks, head, i, input, current) == fork_id_scan(
            forks.remove(k),
            head,
            i,
            input,
            current,
        ),
    decreases k - i,
{
    let r = forks.remove(k);
    if i == k {
        lemma_scan_shift(forks, k, head, k, input, current);
    } else {
        assert(r[i] == forks[i]);
        let cond = forks[i].1;
        match fork_value(cond) {
            None => lemma_scan_without_never(forks, k, head, i + 1, input, current),
            Some(v) => {
                if cond.spec_active_at_head(head) {
                    if v != current {
                        lemma_scan_without_never(forks, k, head, i + 1, input + be_bytes(v), v);
                    } else {
                        lemma_scan_without_never(forks, k, head, i + 1, input, current);
                    }
                }
            },
        }
    }
}

proof fn lemma_keys_shift(forks: Seq<(Hardfork, ForkCondition)>, k: int, j: int)
    requires
        0 <= k <= j < forks.len(),
    ensures
        filter_keys_from(forks, j + 1) == filter_keys_from(forks.remove(k), j),
    decreases forks.len() - j,
{
    if j + 1 < forks.len() {
        assert(forks.remove(k)[j] == forks[j + 1]);
        lemma_keys_shift(forks, k, j + 1);
    }
}

proof fn lemma_keys_without_never(forks: Seq<(Hardfork, ForkCondition)>, k: int, i: int)
    requires
        0 <= i <= k < forks.len(),
        forks[k].1 is Never,
    ensures
        filter_keys_from(forks, i) == filter_keys_from(forks.remove(k), i),
    decreases k - i,
{
    if i == k {
        lemma_keys_shift(forks, k, k);
    } else {
        assert(forks.remove(k)[i] == forks[i]);
        lemma_keys_without_never(forks, k, i + 1);
    }
}

/// Law: a fork configured as `Never` adds nothing to fork ids or fork
/// filters: dropping its entry changes neither.
pub proof fn lemma_never_fork_contributes_nothing(spec: ChainSpec, k: int, head: Head)
    requires
        0 <= k < spec.hardforks@.len(),
        spec.hardforks@[k].1 is Never,
    ensures
        spec.spec_fork_id(head) == fork_id_scan(
            spec.hardforks@.remove(k),
            head,
            0,
            spec.genesis.hash@,
            0,
        ),
        filter_keys_from(spec.hardforks@, 0) == filter_keys_from(spec.hardforks@.remove(k), 0),
{
    lemma_scan_without_never(spec.hardforks@, k, head, 0, spec.genesis.hash@, 0);
    lemma_keys_without_never(spec.hardforks@, k, 0);
}

/// Builds chain specifications.
#[derive(Clone, Debug)]
pub struct ChainSpecBuilder {
    chain: Option<Chain>,
    genesis: Option<Genesis>,
    hardforks: Vec<(Hardfork, ForkCondition)>,
}

impl ChainSpecBuilder {
    pub closed spec fn spec_chain(&self) -> Option<Chain> {
        self.chain
    }

    pub closed spec fn spec_genesis(&self) -> Option<Genesis> {
        self.genesis
    }

    pub closed spec fn spec_hardforks(&self) -> Seq<(Hardfork, ForkCondition)> {
        self.hardforks@
    }

    /// The forks are held in activation order, one entry each.
    pub open spec fn wf(&self) -> bool {
        ChainSpec::forks_ordered(self.spec_hardforks())
    }

    /// A builder with nothing set.
    pub fn new() -> (r: ChainSpecBuilder)
        ensures
            r.wf(),
            r.spec_chain() is None,
            r.spec_genesis() is None,
            r.spec_hardforks().len() == 0,
    {
        ChainSpecBuilder { chain: None, genesis: None, hardforks: Vec::new() }
    }

    /// A builder for the main network: its chain id, no fork set yet.
    pub fn mainnet() -> (r: ChainSpecBuilder)
        ensures
            r.wf(),
            r.spec_chain() == Some(Chain::Named(crate::chain_id::SymphonyChains::Mainnet)),
            r.spec_genesis() is None,
            r.spec_hardforks().len() == 0,
    {
        ChainSpecBuilder { chain: Some(Chain::mainnet()), genesis: None, hardforks: Vec::new() }
    }

    /// A builder holding the chain id, genesis and forks of `spec`.
    pub fn from_spec(spec: &ChainSpec) -> (r: ChainSpecBuilder)
        requires
            spec.wf(),
        ensures
            r.wf(),
            r.spec_chain() == Some(spec.chain),
            r.spec_genesis() matches Some(g) && g.hash == spec.genesis.hash
                && g.extra_data@ == spec.genesis.extra_data@ && g.timestamp == spec.genesis.timestamp,
            r.spec_hardforks() == spec.hardforks@,
    {
        ChainSpecBuilder {
            chain: Some(spec.chain),
            genesis: Some(spec.genesis.duplicate()),
            hardforks: spec.forks_iter(),
        }
    }

    /// Sets the chain id.
    pub fn chain(self, chain: Chain) -> (r: ChainSpecBuilder)
        requires
            self.wf(),
        ensures
            r.wf(),
            r.spec_chain() == Some(chain),
            r.spec_genesis() == self.spec_genesis(),
            r.spec_hardforks() == self.spec_hardforks(),
    {
        let mut b = self;
        b.chain = Some(chain);
        b
    }

    /// Sets the genesis block.
    pub fn genesis(self, genesis: Genesis) -> (r: ChainSpecBuilder)
        requires
            self.wf(),
        ensures
            r.wf(),
            r.spec_chain() == self.spec_chain(),
            r.spec_genesis() == Some(genesis),
            r.spec_hardforks() == self.spec_hardforks(),
    {
        let mut b = self;
        b.genesis = Some(genesis);
        b
    }

    /// Sets the activation condition of `fork`.
    pub fn with_fork(self, fork: Hardfork, condition: ForkCondition) -> (r: ChainSpecBuilder)
        requires
            self.wf(),
        ensures
            r.wf(),
            r.spec_chain() == self.spec_chain(),
            r.spec_genesis() == self.spec_genesis(),
            r.spec_hardforks() == with_entry(self.spec_hardforks(), fork, condition),
            forall|h: Hardfork|
                lookup_from(r.spec_hardforks(), h, 0) == if h == fork {
                    condition
                } else {
                    lookup_from(self.spec_hardforks(), h, 0)
                },
    {
        let mut b = self;
        set_fork(&mut b.hardforks, fork, condition);
        proof {
            assert forall|h: Hardfork|
                lookup_from(b.spec_hardforks(), h, 0) == if h == fork {
                    condition
                } else {
                    lookup_from(self.spec_hardforks(), h, 0)
                } by {
                lemma_with_entry_lookup(self.spec_hardforks(), fork, condition, h);
            }
        }
        b
    }

    /// Activates Paris at the total difficulty `ttd`, its block unknown.
    pub fn paris_at_ttd(self, ttd: U256) -> (r: ChainSpecBuilder)
        requires
            self.wf(),
        ensures
            r.wf(),
            r.spec_chain() == self.spec_chain(),
            r.spec_genesis() == self.spec_genesis(),
            r.spec_hardforks() == with_entry(
                self.spec_hardforks(),
                Hardfork::Paris,
                ForkCondition::TTD { fork_block: None, total_difficulty: ttd },
            ),
    {
        self.with_fork(Hardfork::Paris, ForkCondition::TTD { fork_block: None, total_difficulty: ttd })
    }

    /// Activates Frontier at genesis.
    pub fn frontier_activated(self) -> (r: ChainSpecBuilder)
        requires
            self.wf(),
        ensures
            r.wf(),
            r.spec_chain() == self.spec_chain(),
            r.spec_genesis() == self.spec_genesis(),
            r.spec_hardforks() == activated_through(self.spec_hardforks(), 1),
    {
        assert(activated_through(self.spec_hardforks(), 0) == self.spec_hardforks());
        self.with_fork(Hardfork::Frontier, ForkCondition::Block(0))
    }

    /// Activates Homestead and the forks before it at genesis.
    pub fn homestead_activated(self) -> (r: ChainSpecBuilder)
        requires
            self.wf(),
        ensures
            r.wf(),
            r.spec_chain() == self.spec_chain(),
            r.spec_genesis() == self.spec_genesis(),
            r.spec_hardforks() == activated_through(self.spec_hardforks(), 2),
    {
        self.frontier_activated().with_fork(Hardfork::Homestead, ForkCondition::Block(0))
    }

    /// Activates Tangerine Whistle and the forks before it at genesis.
    pub fn tangerine_whistle_activated(self) -> (r: ChainSpecBuilder)
        requires
            self.wf(),
        ensures
            r.wf(),
            r.spec_chain() == self.spec_chain(),
            r.spec_genesis() == self.spec_genesis(),
            r.spec_hardforks() == activated_through(self.spec_hardforks(), 3),
    {
        self.homestead_activated().with_fork(Hardfork::Tangerine, ForkCondition::Block(0))
    }

    /// Activates Spurious Dragon and the forks before it at genesis.
    pub fn spurious_dragon_activated(self) -> (r: ChainSpecBuilder)
        requires
            self.wf(),
        ensures
            r.wf(),
            r.spec_chain() == self.spec_chain(),
            r.spec_genesis() == self.spec_genesis(),
            r.spec_hardforks() == activated_through(self.spec_hardforks(), 4),
    {
        self.tangerine_whistle_activated().with_fork(Hardfork::SpuriousDragon, ForkCondition::Block(0))
    }

    /// Activates Byzantium and the forks before it at genesis.
    pub fn byzantium_activated(self) -> (r: ChainSpecBuilder)
        requires
            self.wf(),
        ensures
            r.wf(),
            r.spec_chain() == self.spec_chain(),
            r.spec_genesis() == self.spec_genesis(),
            r.spec_hardforks() == activated_through(self.spec_hardforks(), 5),
    {
        self.spurious_dragon_activated().with_fork(Hardfork::Byzantium, ForkCondition::Block(0))
    }

    /// Activates Petersburg and the forks before it at genesis.
    pub fn petersburg_activated(self) -> (r: ChainSpecBuilder)
        requires
            self.wf(),
        ensures
            r.wf(),
            r.spec_chain() == self.spec_chain(),
            r.spec_genesis() == self.spec_genesis(),
            r.spec_hardforks() == activated_through(self.spec_hardforks(), 6),
    {
        self.byzantium_activated().with_fork(Hardfork::Petersburg, ForkCondition::Block(0))
    }

    /// Activates Istanbul and the forks before it at genesis.
    pub fn istanbul_activated(self) -> (r: ChainSpecBuilder)
        requires
            self.wf(),
        ensures
            r.wf(),
            r.spec_chain() == self.spec_chain(),
            r.spec_genesis() == self.spec_genesis(),
            r.spec_hardforks() == activated_through(self.spec_hardforks(), 7),
    {
        self.petersburg_activated().with_fork(Hardfork::Istanbul, ForkCondition::Block(0))
    }

    /// Activates Berlin and the forks before it at genesis.
    pub fn berlin_activated(self) -> (r: ChainSpecBuilder)
        requires
            self.wf(),
        ensures
            r.wf(),
            r.spec_chain() == self.spec_chain(),
            r.spec_genesis() == self.spec_genesis(),
            r.spec_hardforks() == activated_through(self.spec_hardforks(), 8),
    {
        self.istanbul_activated().with_fork(Hardfork::Berlin, ForkCondition::Block(0))
    }

    /// Activates London and the forks before it at genesis.
    pub fn london_activated(self) -> (r: ChainSpecBuilder)
        requires
            self.wf(),
        ensures
            r.wf(),
            r.spec_chain() == self.spec_chain(),
            r.spec_genesis() == self.spec_genesis(),
            r.spec_hardforks() == activated_through(self.spec_hardforks(), 9),
    {
        self.berlin_activated().with_fork(Hardfork::London, ForkCondition::Block(0))
    }

    /// Activates Paris and the forks before it at genesis.
    pub fn paris_activated(self) -> (r: ChainSpecBuilder)
        requires
            self.wf(),
        ensures
            r.wf(),
            r.spec_chain() == self.spec_chain(),
            r.spec_genesis() == self.spec_genesis(),
            r.spec_hardforks() == activated_through(self.spec_hardforks(), 10),
    {
        self.london_activated().with_fork(
            Hardfork::Paris,
            ForkCondition::TTD { fork_block: Some(0), total_difficulty: U256 { hi: 0, lo: 0 } },
        )
    }

    /// Activates Shanghai and the forks before it at genesis.
    pub fn shanghai_activated(self) -> (r: ChainSpecBuilder)
        requires
            self.wf(),
        ensures
            r.wf(),
            r.spec_chain() == self.spec_chain(),
            r.spec_genesis() == self.spec_genesis(),
            r.spec_hardforks() == activated_through(self.spec_hardforks(), 11),
    {
        self.paris_activated().with_fork(Hardfork::Shanghai, ForkCondition::Timestamp(0))
    }

    /// The chain specification. The chain id and the genesis must be set.
    pub fn build(self) -> (r: ChainSpec)
        requires
            self.wf(),
            self.spec_chain() is Some,
            self.spec_genesis() is Some,
        ensures
            Some(r.chain) == self.spec_chain(),
            Some(r.genesis) == self.spec_genesis(),
            r.hardforks@ == self.spec_hardforks(),
            r.wf(),
            r.paris_block_and_final_difficulty is None,
            r.fork_timestamps.shanghai == match lookup_from(
                self.spec_hardforks(),
                Hardfork::Shanghai,
                0,
            ) {
                ForkCondition::Timestamp(t) => Some(t),
                _ => None::<u64>,
            },
    {
        let fork_timestamps = ForkTimestamps::from_hardforks(&self.hardforks);
        let chain = match self.chain {
            Some(c) => c,
            None => Chain::mainnet(),
        };
        let genesis = match self.genesis {
            Some(g) => g,
            None => Genesis::default(),
        };
        ChainSpec {
            chain,
            genesis,
            paris_block_and_final_difficulty: None,
            fork_timestamps,
            hardforks: self.hardforks,
        }
    }
}

/// The forks that the builder activates at genesis, one after the other.
pub open spec fn genesis_sequence() -> Seq<Hardfork> {
    seq![
        Hardfork::Frontier,
        Hardfork::Homestead,
        Hardfork::Tangerine,
        Hardfork::SpuriousDragon,
        Hardfork::Byzantium,
        Hardfork::Petersburg,
        Hardfork::Istanbul,
        Hardfork::Berlin,
        Hardfork::London,
        Hardfork::Paris,
        Hardfork::Shanghai,
    ]
}

/// The condition under which a fork is active from genesis.
pub open spec fn genesis_condition(fork: Hardfork) -> ForkCondition {
    match fork {
        Hardfork::Paris => ForkCondition::TTD {
            fork_block: Some(0),
            total_difficulty: U256 { hi: 0, lo: 0 },
        },
        Hardfork::Shanghai => ForkCondition::Timestamp(0),
        _ => ForkCondition::Block(0),
    }
}

/// `forks` with the first `k` forks of [`genesis_sequence`] set active from
/// genesis, in that order.
pub open spec fn activated_through(forks: Seq<(Hardfork, ForkCondition)>, k: nat) -> Seq<
    (Hardfork, ForkCondition),
>
    decreases k,
{
    if k == 0 {
        forks
    } else {
        let fork = genesis_sequence()[k - 1];
        with_entry(activated_through(forks, (k - 1) as nat), fork, genesis_condition(fork))
    }
}

} // verus!
