use vstd::prelude::*;

verus! {

/// Big-endian value of a byte string.
pub open spec fn be_value(s: Seq<u8>) -> nat
    decreases s.len(),
{
    if s.len() == 0 {
        0
    } else {
        be_value(s.drop_last()) * 256 + s.last() as nat
    }
}

pub open spec fn pow256(n: nat) -> nat
    decreases n,
{
    if n == 0 {
        1
    } else {
        pow256((n - 1) as nat) * 256
    }
}

pub proof fn lemma_be_value_bound(s: Seq<u8>)
    ensures
        be_value(s) < pow256(s.len()),
    decreases s.len(),
{
    if s.len() > 0 {
        lemma_be_value_bound(s.drop_last());
        let a = be_value(s.drop_last());
        let p = pow256(s.drop_last().len());
        let b = s.last() as nat;
        assert(a * 256 + b < p * 256) by (nonlinear_arith)
            requires
                a < p,
                b < 256,
        ;
    }
}

/// An unsigned 256-bit word (a job id, a deadline, a counter), in two halves.
#[derive(Clone, Copy, Debug, PartialEq, Eq, Structural)]
pub struct Word {
    pub hi: u128,
    pub lo: u128,
}

/// The word that 32 big-endian bytes encode.
pub open spec fn word_of(s: Seq<u8>) -> Word {
    Word { hi: be_value(s.subrange(0, 16)) as u128, lo: be_value(s.subrange(16, 32)) as u128 }
}

impl Word {
    pub open spec fn value(self) -> nat {
        self.hi as nat * 0x1_0000_0000_0000_0000_0000_0000_0000_0000 + self.lo as nat
    }

    /// The word holding a small value.
    pub fn from_u128(v: u128) -> (r: Word)
        ensures
            r == (Word { hi: 0, lo: v }),
            r.value() == v,
    {
        Word { hi: 0, lo: v }
    }

    /// The value as a `u64`, where it fits.
    pub fn to_u64(&self) -> (r: Option<u64>)
        ensures
            r == (if self.hi == 0 && self.lo <= u64::MAX as u128 {
                Some(self.lo as u64)
            } else {
                None::<u64>
            }),
    {
        if self.hi == 0 && self.lo <= u64::MAX as u128 {
            Some(self.lo as u64)
        } else {
            None
        }
    }
}

/// Reads 16 bytes of `b`, from `start`, as a big-endian integer.
fn be_u128(b: &[u8], start: usize) -> (r: u128)
    requires
        start <= 16,
        start + 16 <= b@.len(),
    ensures
        r as nat == be_value(b@.subrange(start as int, start + 16)),
{
    let mut acc: u128 = 0;
    let mut i: usize = start;
    let end: usize = start + 16;
    while i < end
        invariant
            end == start + 16,
            start <= i <= start + 16,
            start + 16 <= b@.len(),
            acc as nat == be_value(b@.subrange(start as int, i as int)),
        decreases end - i,
    {
        let ghost pre = b@.subrange(start as int, i as int);
        let ghost next = b@.subrange(start as int, i + 1);
        proof {
            assert(next.drop_last() =~= pre);
            lemma_be_value_bound(pre);
            assert(pow256(pre.len()) <= pow256(15)) by {
                lemma_pow256_mono(pre.len(), 15);
            }
            assert(pow256(15) == 0x1_0000_0000_0000_0000_0000_0000_0000_00) by {
                reveal_with_fuel(pow256, 16);
            }
        }
        acc = acc * 256 + b[i] as u128;
        i = i + 1;
    }
    acc
}

proof fn lemma_pow256_mono(a: nat, b: nat)
    requires
        a <= b,
    ensures
        pow256(a) <= pow256(b),
    decreases b - a,
{
    if a < b {
        lemma_pow256_mono(a, (b - 1) as nat);
    }
}

/// The word that 32 big-endian bytes (an indexed log topic, an ABI integer) encode.
pub fn word_from_be_bytes(b: &[u8]) -> (r: Word)
    requires
        b@.len() == 32,
    ensures
        r == word_of(b@),
{
    let hi = be_u128(b, 0);
    let lo = be_u128(b, 16);
    Word { hi, lo }
}

} // verus!
