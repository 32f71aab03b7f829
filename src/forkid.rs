//! Fork identifiers that peers compare to tell whether their chains agree.
use vstd::prelude::*;
use crate::primitives::{B256, Head};

verus! {

/// What the CRC-32 checksum (ISO-HDLC parameters, the IEEE polynomial) of
/// `bytes` is.
pub uninterp spec fn crc32_of(bytes: Seq<u8>) -> u32;

/// Relies on `crc::Crc::<u32>::checksum` with `CRC_32_ISO_HDLC`: the checksum
/// of the bytes.
#[verifier::external_body]
pub(crate) fn crc32(bytes: &Vec<u8>) -> (r: u32)
    ensures
        r == crc32_of(bytes@),
{
    crc::Crc::<u32>::new(&crc::CRC_32_ISO_HDLC).checksum(bytes.as_slice())
}

/// The checksum of the genesis hash followed by the activation value of each
/// fork passed so far.
#[derive(Clone, Copy, Debug, PartialEq, Eq, Hash, Structural)]
pub struct ForkHash(pub u32);

/// A fork identifier: the hash of the forks passed, and the next activation
/// value, zero where none is scheduled.
#[derive(Clone, Copy, Debug, PartialEq, Eq, Hash, Structural)]
pub struct ForkId {
    pub hash: ForkHash,
    pub next: u64,
}

/// What a fork is keyed by in a fork filter.
#[derive(Clone, Copy, Debug, PartialEq, Eq, PartialOrd, Ord, Hash, Structural)]
pub enum ForkFilterKey {
    Block(u64),
    Time(u64),
}

/// The inputs of a peer fork filter: the local head, the genesis hash and the
/// activation key of each fork that has one, in activation order.
#[derive(Clone, Debug)]
pub struct ForkFilter {
    pub head: Head,
    pub genesis_hash: B256,
    pub forks: Vec<ForkFilterKey>,
}

/// The eight big-endian bytes of `v`.
pub open spec fn be_bytes(v: u64) -> Seq<u8> {
    seq![
        (v / 0x100_0000_0000_0000) as u8,
        (v / 0x1_0000_0000_0000 % 256) as u8,
        (v / 0x100_0000_0000 % 256) as u8,
        (v / 0x1_0000_0000 % 256) as u8,
        (v / 0x100_0000 % 256) as u8,
        (v / 0x1_0000 % 256) as u8,
        (v / 0x100 % 256) as u8,
        (v % 256) as u8,
    ]
}

/// Appends the eight big-endian bytes of `v` to `out`.
pub fn push_be_bytes(out: &mut Vec<u8>, v: u64)
    ensures
        final(out)@ == old(out)@ + be_bytes(v),
{
    out.push((v / 0x100_0000_0000_0000) as u8);
    out.push((v / 0x1_0000_0000_0000 % 256) as u8);
    out.push((v / 0x100_0000_0000 % 256) as u8);
    out.push((v / 0x1_0000_0000 % 256) as u8);
    out.push((v / 0x100_0000 % 256) as u8);
    out.push((v / 0x1_0000 % 256) as u8);
    out.push((v / 0x100 % 256) as u8);
    out.push((v % 256) as u8);
    assert(final(out)@ =~= old(out)@ + be_bytes(v));
}

/// The bytes of a hash, as a vector.
pub fn hash_bytes(h: &B256) -> (r: Vec<u8>)
    ensures
        r@ == h@,
{
    let mut r: Vec<u8> = Vec::new();
    let mut i: usize = 0;
    while i < 32
        invariant
            i <= 32,
            h@.len() == 32,
            r@ == h@.subrange(0, i as int),
        decreases 32 - i,
    {
        r.push(h.0[i]);
        i = i + 1;
        assert(r@ =~= h@.subrange(0, i as int));
    }
    assert(h@.subrange(0, 32) =~= h@);
    r
}

} // verus!
