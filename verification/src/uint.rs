//! Unsigned integers wider than a machine word, and their byte form.
use vstd::prelude::*;

verus! {

/// The number that `bytes` writes in base 256, most significant byte first.
pub open spec fn be_nat(bytes: Seq<u8>) -> nat
    decreases bytes.len(),
{
    if bytes.len() == 0 {
        0
    } else {
        be_nat(bytes.drop_last()) * 256 + bytes.last() as nat
    }
}

/// The number that `bytes` writes in base 256, least significant byte first.
pub open spec fn le_nat(bytes: Seq<u8>) -> nat {
    be_nat(bytes.reverse())
}

/// `256` to the power `n`.
pub open spec fn pow256(n: nat) -> nat
    decreases n,
{
    if n == 0 {
        1
    } else {
        pow256((n - 1) as nat) * 256
    }
}

/// An unsigned 256-bit integer, as its upper and its lower half.
#[derive(Clone, Copy, Debug, PartialEq, Eq, Structural)]
pub struct U256 {
    pub hi: u128,
    pub lo: u128,
}

impl View for U256 {
    type V = nat;

    open spec fn view(&self) -> nat {
        self.hi as nat * 0x1_0000_0000_0000_0000_0000_0000_0000_0000 + self.lo as nat
    }
}

/// The powers that stand for a word of 64 and of 128 bits.
pub proof fn lemma_pow256_constants()
    ensures
        pow256(8) == 0x1_0000_0000_0000_0000,
        pow256(16) == 0x1_0000_0000_0000_0000_0000_0000_0000_0000,
{
    reveal_with_fuel(pow256, 17);
}

/// A number of `n` bytes is below `256` to the power `n`.
proof fn lemma_be_nat_bound(bytes: Seq<u8>)
    ensures
        be_nat(bytes) < pow256(bytes.len()),
    decreases bytes.len(),
{
    if bytes.len() > 0 {
        lemma_be_nat_bound(bytes.drop_last());
    }
}

/// The bytes of a number, cut in two, are the bytes of its upper and lower
/// part.
pub proof fn lemma_be_nat_concat(a: Seq<u8>, b: Seq<u8>)
    ensures
        be_nat(a + b) == be_nat(a) * pow256(b.len()) + be_nat(b),
    decreases b.len(),
{
    if b.len() == 0 {
        assert(a + b =~= a);
        assert(be_nat(a) * 1 == be_nat(a));
    } else {
        let init = b.drop_last();
        lemma_be_nat_concat(a, init);
        assert((a + b).drop_last() =~= a + init);
        let x = be_nat(a);
        let p = pow256(init.len());
        let y = be_nat(init);
        let q = pow256(b.len());
        assert((x * p + y) * 256 == x * q + y * 256) by (nonlinear_arith)
            requires
                q == p * 256,
        ;
    }
}

/// Two numbers of the same number of bytes are equal only if their bytes are.
pub proof fn lemma_be_nat_injective(a: Seq<u8>, b: Seq<u8>)
    requires
        a.len() == b.len(),
        be_nat(a) == be_nat(b),
    ensures
        a == b,
    decreases a.len(),
{
    if a.len() > 0 {
        lemma_be_nat_injective(a.drop_last(), b.drop_last());
        assert(a =~= a.drop_last().push(a.last()));
        assert(b =~= b.drop_last().push(b.last()));
    } else {
        assert(a =~= b);
    }
}

/// Reads the `len` bytes from `from` on, most significant byte first.
fn be_uint(bytes: &[u8; 32], from: usize, len: usize) -> (r: u128)
    requires
        len <= 16,
        from + len <= 32,
    ensures
        r == be_nat(bytes@.subrange(from as int, from + len)),
{
    let mut acc: u128 = 0;
    let mut i: usize = 0;
    assert(be_nat(bytes@.subrange(from as int, from as int)) == 0);
    while i < len
        invariant
            i <= len <= 16,
            from + len <= 32,
            acc == be_nat(bytes@.subrange(from as int, from + i)),
        decreases len - i,
    {
        proof {
            let cur = bytes@.subrange(from as int, from + i);
            let next = bytes@.subrange(from as int, from + i + 1);
            assert(next.drop_last() =~= cur);
            lemma_be_nat_bound(next);
            lemma_pow256_monotone(next.len(), 16);
            lemma_pow256_constants();
        }
        acc = acc * 256 + bytes[from + i] as u128;
        i = i + 1;
    }
    acc
}

/// A larger exponent gives a larger power.
proof fn lemma_pow256_monotone(a: nat, b: nat)
    requires
        a <= b,
    ensures
        pow256(a) <= pow256(b),
        1 <= pow256(a),
    decreases b,
{
    if a < b {
        lemma_pow256_monotone(a, (b - 1) as nat);
    } else if b > 0 {
        lemma_pow256_monotone((a - 1) as nat, (b - 1) as nat);
    }
}

/// Reads a 64-bit word, most significant byte first.
pub fn be_u64(bytes: &[u8; 32], from: usize) -> (r: u64)
    requires
        from + 8 <= 32,
    ensures
        r == be_nat(bytes@.subrange(from as int, from + 8)),
{
    proof {
        lemma_be_nat_bound(bytes@.subrange(from as int, from + 8));
        lemma_pow256_constants();
    }
    be_uint(bytes, from, 8) as u64
}

impl U256 {
    /// Reads a number from its bytes, most significant byte first.
    pub fn from_be_bytes(bytes: &[u8; 32]) -> (r: U256)
        ensures
            r@ == be_nat(bytes@),
    {
        proof {
            let a = bytes@.subrange(0, 16);
            let b = bytes@.subrange(16, 32);
            lemma_be_nat_concat(a, b);
            lemma_pow256_constants();
            assert(a + b =~= bytes@);
        }
        U256 { hi: be_uint(bytes, 0, 16), lo: be_uint(bytes, 16, 16) }
    }

    /// Reads a number from its bytes, least significant byte first.
    pub fn from_le_bytes(bytes: &[u8; 32]) -> (r: U256)
        ensures
            r@ == le_nat(bytes@),
    {
        let mut be: [u8; 32] = [0u8; 32];
        let mut i: usize = 0;
        while i < 32
            invariant
                i <= 32,
                forall|j: int| 0 <= j < i ==> be@[j] == bytes@[31 - j],
            decreases 32 - i,
        {
            be[i] = bytes[31 - i];
            i = i + 1;
        }
        assert(be@ =~= bytes@.reverse());
        U256::from_be_bytes(&be)
    }

    /// Writes the bytes of the number into `be`, most significant byte first.
    pub fn to_big_endian(&self, be: &mut [u8; 32])
        ensures
            be_nat(final(be)@) == self@,
    {
        write_be(self.hi, be, 0);
        let ghost upper = be@.subrange(0, 16);
        write_be(self.lo, be, 16);
        proof {
            assert(be@.subrange(0, 16) =~= upper);
            lemma_be_nat_concat(upper, be@.subrange(16, 32));
            lemma_pow256_constants();
            assert(upper + be@.subrange(16, 32) =~= be@);
        }
    }
}

/// Writes the 16 bytes of `n` from `from` on, most significant byte first, and
/// leaves the others as they are.
fn write_be(n: u128, be: &mut [u8; 32], from: usize)
    requires
        from + 16 <= 32,
    ensures
        be_nat(final(be)@.subrange(from as int, from + 16)) == n,
        forall|j: int|
            0 <= j < 32 && !(from <= j < from + 16) ==> final(be)@[j] == old(be)@[j],
{
    let mut rest: u128 = n;
    let mut k: usize = 0;
    assert(be_nat(be@.subrange(from + 16, from + 16)) == 0);
    assert(rest * 1 == rest);
    while k < 16
        invariant
            k <= 16,
            from + 16 <= 32,
            rest * pow256(k as nat) + be_nat(be@.subrange(from + 16 - k, from + 16)) == n,
            forall|j: int|
                0 <= j < 32 && !(from <= j < from + 16) ==> be@[j] == old(be)@[j],
        decreases 16 - k,
    {
        let ghost low = be@.subrange(from + 16 - k, from + 16);
        let digit: u8 = (rest % 256) as u8;
        be[from + 15 - k] = digit;
        proof {
            let next = be@.subrange(from + 15 - k, from + 16);
            assert(next =~= seq![digit] + low);
            lemma_be_nat_concat(seq![digit], low);
            assert(seq![digit].drop_last() =~= Seq::<u8>::empty());
            assert(be_nat(Seq::<u8>::empty()) == 0);
            let p = pow256(k as nat);
            let p_next = pow256((k + 1) as nat);
            let q = (rest / 256) as nat;
            let d = digit as nat;
            assert(be_nat(seq![digit]) == d);
            assert(rest * p == q * p_next + d * p) by (nonlinear_arith)
                requires
                    p_next == p * 256,
                    rest == q * 256 + d,
            ;
        }
        rest = rest / 256;
        k = k + 1;
    }
    proof {
        lemma_pow256_constants();
    }
}

} // verus!
