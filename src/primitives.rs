//! Fixed-width values shared by every part of the library: 256-bit integers,
//! hashes, addresses and the description of a chain head.
use vstd::prelude::*;

verus! {

/// The numeric base of the low half of a [`U256`].
pub open spec fn half_base() -> nat {
    u128::MAX as nat + 1
}

/// A 256-bit unsigned integer held as two 128-bit halves.
#[derive(Clone, Copy, Debug, PartialEq, Eq, Structural)]
pub struct U256 {
    pub hi: u128,
    pub lo: u128,
}

/// Ordering two [`U256`] values by their halves agrees with ordering their numbers.
proof fn lemma_value_order(a: U256, b: U256)
    ensures
        (a.value() >= b.value()) == (a.hi > b.hi || (a.hi == b.hi && a.lo >= b.lo)),
        a.hi > b.hi ==> a.value() - b.value() == (a.hi - b.hi) as nat * half_base() + a.lo - b.lo,
        a.hi == b.hi ==> a.value() - b.value() == a.lo - b.lo,
{
    let base = half_base();
    assert(base == u128::MAX as nat + 1);
    let (ah, al, bh, bl) = (a.hi as int, a.lo as int, b.hi as int, b.lo as int);
    assert(a.value() == ah * base + al);
    assert(b.value() == bh * base + bl);
    assert(ah > bh ==> ah * base - bh * base == (ah - bh) * base) by (nonlinear_arith);
    assert(ah > bh ==> (ah - bh) * base >= base) by (nonlinear_arith)
        requires base > 0;
    assert(ah < bh ==> (bh - ah) * base >= base) by (nonlinear_arith)
        requires base > 0;
    assert(ah < bh ==> bh * base - ah * base == (bh - ah) * base) by (nonlinear_arith);
}

impl U256 {
    /// The number this value stands for.
    pub open spec fn value(self) -> nat {
        self.hi as nat * half_base() + self.lo as nat
    }

    pub fn zero() -> (r: U256)
        ensures
            r.value() == 0,
    {
        U256 { hi: 0, lo: 0 }
    }

    /// The largest representable value, `2^256 - 1`.
    pub fn max_value() -> (r: U256)
        ensures
            r.hi == u128::MAX && r.lo == u128::MAX,
    {
        U256 { hi: u128::MAX, lo: u128::MAX }
    }

    pub fn from_u64(v: u64) -> (r: U256)
        ensures
            r.value() == v,
    {
        U256 { hi: 0, lo: v as u128 }
    }

    pub fn from_u128(v: u128) -> (r: U256)
        ensures
            r.value() == v,
    {
        U256 { hi: 0, lo: v }
    }

    pub fn is_zero(&self) -> (r: bool)
        ensures
            r == (self.value() == 0),
    {
        proof {
            lemma_value_order(*self, U256 { hi: 0, lo: 0 });
        }
        self.hi == 0 && self.lo == 0
    }

    /// `self >= other` as numbers.
    pub fn ge(&self, other: &U256) -> (r: bool)
        ensures
            r == (self.value() >= other.value()),
    {
        proof {
            lemma_value_order(*self, *other);
        }
        self.hi > other.hi || (self.hi == other.hi && self.lo >= other.lo)
    }

    /// `self - other`, or zero where `other` is the larger.
    pub fn saturating_sub(&self, other: &U256) -> (r: U256)
        ensures
            r.value() == if self.value() >= other.value() {
                self.value() - other.value()
            } else {
                0
            },
    {
        proof {
            lemma_value_order(*self, *other);
        }
        if !self.ge(other) {
            U256 { hi: 0, lo: 0 }
        } else if self.lo >= other.lo {
            U256 { hi: self.hi - other.hi, lo: self.lo - other.lo }
        } else {
            let lo = u128::MAX - (other.lo - self.lo) + 1;
            U256 { hi: self.hi - other.hi - 1, lo }
        }
    }
}

/// A 32-byte hash.
#[derive(Clone, Copy, Debug, PartialEq, Eq)]
pub struct B256(pub [u8; 32]);

impl View for B256 {
    type V = Seq<u8>;

    open spec fn view(&self) -> Seq<u8> {
        self.0@
    }
}

impl B256 {
    pub fn zero() -> (r: B256)
        ensures
            r@ == Seq::new(32, |i: int| 0u8),
    {
        let r = B256([0u8; 32]);
        assert(r@ =~= Seq::new(32, |i: int| 0u8));
        r
    }

    /// Compares two hashes byte by byte.
    pub fn same_as(&self, other: &B256) -> (r: bool)
        ensures
            r == (self@ == other@),
    {
        let mut i: usize = 0;
        while i < 32
            invariant
                i <= 32,
                self@.len() == 32,
                other@.len() == 32,
                forall|j: int| 0 <= j < i ==> self@[j] == other@[j],
            decreases 32 - i,
        {
            if self.0[i] != other.0[i] {
                return false;
            }
            i = i + 1;
        }
        assert(self@ =~= other@);
        true
    }
}

/// A 20-byte account address.
#[derive(Clone, Copy, Debug, PartialEq, Eq)]
pub struct Address(pub [u8; 20]);

impl View for Address {
    type V = Seq<u8>;

    open spec fn view(&self) -> Seq<u8> {
        self.0@
    }
}

impl Address {
    /// Compares two addresses byte by byte.
    pub fn same_as(&self, other: &Address) -> (r: bool)
        ensures
            r == (self@ == other@),
    {
        let mut i: usize = 0;
        while i < 20
            invariant
                i <= 20,
                self@.len() == 20,
                other@.len() == 20,
                forall|j: int| 0 <= j < i ==> self@[j] == other@[j],
            decreases 20 - i,
        {
            if self.0[i] != other.0[i] {
                return false;
            }
            i = i + 1;
        }
        assert(self@ =~= other@);
        true
    }
}

/// The block a chain's head is at: what fork rules are evaluated against.
#[derive(Clone, Copy, Debug)]
pub struct Head {
    pub number: u64,
    pub hash: B256,
    pub difficulty: U256,
    pub total_difficulty: U256,
    pub timestamp: u64,
}

impl Head {
    /// The genesis-like head: every field zero.
    pub fn zeroed() -> (r: Head)
        ensures
            r.number == 0,
            r.hash@ == Seq::new(32, |i: int| 0u8),
            r.timestamp == 0,
            r.difficulty.value() == 0,
            r.total_difficulty.value() == 0,
    {
        Head {
            number: 0,
            hash: B256::zero(),
            difficulty: U256::zero(),
            total_difficulty: U256::zero(),
            timestamp: 0,
        }
    }
}

} // verus!
