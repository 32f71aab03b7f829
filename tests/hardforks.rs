use symphony_chain::chain_id::Chain;
use symphony_chain::chain_spec::{ChainSpec, ChainSpecBuilder, Genesis};
use symphony_chain::fork_condition::{ForkCondition, ForkTimestamps};
use symphony_chain::forkid::{ForkFilterKey, ForkHash, ForkId};
use symphony_chain::hardfork::Hardfork;
use symphony_chain::primitives::{Head, B256, U256};

fn crc32(bytes: &[u8]) -> u32 {
    crc::Crc::<u32>::new(&crc::CRC_32_ISO_HDLC).checksum(bytes)
}

fn spec_with(forks: Vec<(Hardfork, ForkCondition)>) -> ChainSpec {
    ChainSpec {
        chain: Chain::mainnet(),
        genesis: Genesis::default(),
        paris_block_and_final_difficulty: None,
        fork_timestamps: ForkTimestamps::default(),
        hardforks: forks,
    }
}

fn head(number: u64, timestamp: u64) -> Head {
    let mut h = Head::zeroed();
    h.number = number;
    h.timestamp = timestamp;
    h
}

#[test]
fn check_hardfork_from_str() {
    let hardfork_str = ["acapella"];
    let expected_hardforks = [Hardfork::Acapella];

    let hardforks: Vec<Hardfork> =
        hardfork_str.iter().map(|h| Hardfork::from_str(h).unwrap()).collect();

    assert_eq!(hardforks, expected_hardforks);
}

#[test]
fn check_nonexistent_hardfork_from_str() {
    assert!(Hardfork::from_str("not a hardfork").is_err());
}

#[test]
fn check_fork_id_chainspec_with_fork_condition_never() {
    let spec = spec_with(vec![(Hardfork::Acapella, ForkCondition::Never)]);

    assert_eq!(Hardfork::Acapella.fork_id(&spec), None);
}

#[test]
fn check_fork_filter_chainspec_with_fork_condition_never() {
    let spec = spec_with(vec![(Hardfork::Acapella, ForkCondition::Never)]);

    assert!(Hardfork::Acapella.fork_filter(&spec).is_none());
}

#[test]
fn hardfork_from_str_ignores_case() {
    assert_eq!(Hardfork::from_str("ShAnGhAI"), Ok(Hardfork::Shanghai));
    assert_eq!(Hardfork::from_str("PARIS"), Ok(Hardfork::Paris));
    assert_eq!(Hardfork::from_str("spurIousdrAgon"), Ok(Hardfork::SpuriousDragon));
    assert_eq!(Hardfork::from_str("Bogus").unwrap_err(), "Unknown hardfork: bogus");
}

#[test]
fn block_condition_boundary() {
    let c = ForkCondition::Block(10);
    assert!(!c.active_at_block(9));
    assert!(c.active_at_block(10));
    assert!(c.active_at_block(11));
    assert!(!c.transitions_at_block(9));
    assert!(c.transitions_at_block(10));
    assert!(!c.transitions_at_block(11));
    assert!(!c.active_at_timestamp(100));
}

#[test]
fn ttd_condition_saturates() {
    let c = ForkCondition::TTD { fork_block: None, total_difficulty: U256::from_u64(100) };
    assert!(c.active_at_ttd(U256::from_u64(150), U256::from_u64(50)));
    assert!(!c.active_at_ttd(U256::from_u64(149), U256::from_u64(50)));
    // the block's own difficulty exceeds the total: the parent counts as zero
    assert!(!c.active_at_ttd(U256::from_u64(10), U256::from_u64(50)));
    let zero = ForkCondition::TTD { fork_block: None, total_difficulty: U256::zero() };
    assert!(zero.active_at_ttd(U256::from_u64(10), U256::from_u64(50)));
    assert!(!c.active_at_block(1_000_000));
    let known = ForkCondition::TTD { fork_block: Some(7), total_difficulty: U256::zero() };
    assert!(known.active_at_block(7));
    assert!(!known.active_at_block(6));
    assert_eq!(c.ttd(), Some(U256::from_u64(100)));
}

#[test]
fn u256_saturating_sub_across_halves() {
    let a = U256 { hi: 1, lo: 0 };
    let b = U256 { hi: 0, lo: 1 };
    assert_eq!(a.saturating_sub(&b), U256 { hi: 0, lo: u128::MAX });
    assert_eq!(b.saturating_sub(&a), U256::zero());
    assert!(U256::max_value().ge(&a));
}

#[test]
fn head_condition_and_activation_head() {
    let t = ForkCondition::Timestamp(1000);
    assert!(t.is_timestamp());
    assert_eq!(t.as_timestamp(), Some(1000));
    assert!(t.active_at_head(&head(0, 1000)));
    assert!(!t.active_at_head(&head(5000, 999)));
    let h = ForkCondition::Block(42).satisfy();
    assert_eq!(h.number, 42);
    assert_eq!(h.timestamp, 0);
    assert_eq!(ForkCondition::default(), ForkCondition::Never);
}

#[test]
fn fork_lookup_defaults_to_never() {
    let spec = spec_with(vec![(Hardfork::London, ForkCondition::Block(5))]);
    assert_eq!(spec.fork(Hardfork::London), ForkCondition::Block(5));
    assert_eq!(spec.fork(Hardfork::Paris), ForkCondition::Never);
}

#[test]
fn fork_id_before_first_threshold_is_genesis_checksum() {
    let mut spec = spec_with(vec![
        (Hardfork::Frontier, ForkCondition::Never),
        (Hardfork::Homestead, ForkCondition::Block(100)),
        (Hardfork::London, ForkCondition::Block(200)),
    ]);
    spec.genesis.hash = B256([7u8; 32]);
    let id = spec.fork_id(&head(50, 0));
    assert_eq!(id, ForkId { hash: ForkHash(crc32(&[7u8; 32])), next: 100 });
}

#[test]
fn fork_id_accumulates_passed_forks() {
    let mut spec = spec_with(vec![
        (Hardfork::Homestead, ForkCondition::Block(100)),
        (Hardfork::Byzantium, ForkCondition::Block(100)),
        (Hardfork::London, ForkCondition::Block(200)),
        (Hardfork::Shanghai, ForkCondition::Timestamp(5000)),
    ]);
    spec.genesis.hash = B256([1u8; 32]);
    let mut bytes = vec![1u8; 32];
    bytes.extend_from_slice(&100u64.to_be_bytes());
    let id = spec.fork_id(&head(150, 10));
    assert_eq!(id, ForkId { hash: ForkHash(crc32(&bytes)), next: 200 });
    bytes.extend_from_slice(&200u64.to_be_bytes());
    bytes.extend_from_slice(&5000u64.to_be_bytes());
    let id = spec.fork_id(&head(300, 6000));
    assert_eq!(id, ForkId { hash: ForkHash(crc32(&bytes)), next: 0 });
}

#[test]
fn hardfork_fork_id_uses_activation_head() {
    let mut spec = spec_with(vec![
        (Hardfork::Homestead, ForkCondition::Block(100)),
        (Hardfork::London, ForkCondition::Block(200)),
    ]);
    spec.genesis.hash = B256([3u8; 32]);
    let mut bytes = vec![3u8; 32];
    bytes.extend_from_slice(&100u64.to_be_bytes());
    assert_eq!(
        Hardfork::Homestead.fork_id(&spec),
        Some(ForkId { hash: ForkHash(crc32(&bytes)), next: 200 })
    );
    let filter = Hardfork::London.fork_filter(&spec).unwrap();
    assert_eq!(filter.head.number, 200);
    assert_eq!(filter.forks, vec![ForkFilterKey::Block(100), ForkFilterKey::Block(200)]);
}

#[test]
fn fork_filter_skips_forks_without_a_key() {
    let spec = spec_with(vec![
        (Hardfork::Frontier, ForkCondition::Block(0)),
        (Hardfork::Paris, ForkCondition::TTD { fork_block: None, total_difficulty: U256::zero() }),
        (Hardfork::Shanghai, ForkCondition::Timestamp(9)),
        (Hardfork::Acapella, ForkCondition::Never),
    ]);
    let filter = spec.fork_filter(Head::zeroed());
    assert_eq!(filter.forks, vec![ForkFilterKey::Block(0), ForkFilterKey::Time(9)]);
}

#[test]
fn builder_keeps_forks_in_activation_order() {
    let spec = ChainSpecBuilder::mainnet()
        .genesis(Genesis::default())
        .with_fork(Hardfork::London, ForkCondition::Block(10))
        .with_fork(Hardfork::Frontier, ForkCondition::Block(0))
        .with_fork(Hardfork::London, ForkCondition::Block(12))
        .build();
    assert_eq!(
        spec.hardforks,
        vec![
            (Hardfork::Frontier, ForkCondition::Block(0)),
            (Hardfork::London, ForkCondition::Block(12)),
        ]
    );
    assert_eq!(spec.chain, Chain::mainnet());
}

#[test]
fn builder_shanghai_activated_enables_every_fork_at_genesis() {
    let spec = ChainSpecBuilder::new()
        .chain(Chain::Id(1337))
        .genesis(Genesis::default())
        .shanghai_activated()
        .build();
    assert_eq!(spec.hardforks.len(), 11);
    assert_eq!(spec.fork(Hardfork::Shanghai), ForkCondition::Timestamp(0));
    assert_eq!(
        spec.fork(Hardfork::Paris),
        ForkCondition::TTD { fork_block: Some(0), total_difficulty: U256::zero() }
    );
    assert_eq!(spec.fork_timestamps.shanghai, Some(0));
    assert!(spec.is_shanghai_activated_at_timestamp(0));
    assert_eq!(spec.initial_base_fee(), Some(1_000_000_000));
    let header = spec.genesis_header();
    assert_eq!(header.base_fee_per_gas, Some(1_000_000_000));
    assert!(header.withdrawals_root.is_some());
}

#[test]
fn builder_paris_at_ttd() {
    let spec = ChainSpecBuilder::new()
        .chain(Chain::Id(9))
        .genesis(Genesis::default())
        .paris_at_ttd(U256::from_u64(500))
        .build();
    assert_eq!(spec.fork(Hardfork::Paris).ttd(), Some(U256::from_u64(500)));
    assert_eq!(spec.fork_timestamps.shanghai, None);
    assert_eq!(spec.initial_base_fee(), None);
}

#[test]
fn final_paris_difficulty_applies_from_activation() {
    let mut spec = spec_with(vec![]);
    spec.paris_block_and_final_difficulty = Some((100, U256::from_u64(77)));
    assert_eq!(spec.final_paris_difficulty(99), None);
    assert_eq!(spec.final_paris_difficulty(100), Some(U256::from_u64(77)));
}

#[test]
fn builder_from_spec_keeps_its_forks() {
    let mut spec = spec_with(vec![(Hardfork::London, ForkCondition::Block(3))]);
    spec.genesis.extra_data = vec![1, 2, 3];
    let rebuilt = ChainSpecBuilder::from_spec(&spec)
        .with_fork(Hardfork::Shanghai, ForkCondition::Timestamp(77))
        .build();
    assert_eq!(rebuilt.genesis.extra_data, vec![1, 2, 3]);
    assert_eq!(rebuilt.fork(Hardfork::London), ForkCondition::Block(3));
    assert_eq!(rebuilt.fork_timestamps.shanghai, Some(77));
    assert!(rebuilt.is_fork_active_at_timestamp(Hardfork::Shanghai, 77));
    assert!(!rebuilt.is_fork_active_at_timestamp(Hardfork::Shanghai, 76));
    assert_eq!(rebuilt.forks_iter().len(), 2);
}
