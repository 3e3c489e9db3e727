//! Little-endian encodings of `i128` fields and 32-byte account keys.

use vstd::prelude::*;

verus! {

/// A 32-byte account address.
pub type Pubkey = [u8; 32];

/// The unsigned value of little-endian bytes `s`.
pub open spec fn le_unsigned(s: Seq<u8>) -> nat
    decreases s.len(),
{
    if s.len() == 0 {
        0
    } else {
        (s[0] as nat) + 256 * le_unsigned(s.subrange(1, s.len() as int))
    }
}

/// The two's-complement value of 16 little-endian bytes.
pub open spec fn le_i128(s: Seq<u8>) -> int {
    let u = le_unsigned(s);
    if u >= 0x8000_0000_0000_0000_0000_0000_0000_0000 {
        u - 0x1_0000_0000_0000_0000_0000_0000_0000_0000
    } else {
        u as int
    }
}

/// `256^n`.
pub open spec fn pow256(n: nat) -> nat
    decreases n,
{
    if n == 0 { 1 } else { 256 * pow256((n - 1) as nat) }
}

proof fn lemma_pow256_mono(m: nat, n: nat)
    requires
        m <= n,
    ensures
        pow256(m) <= pow256(n),
    decreases n,
{
    if m < n {
        lemma_pow256_mono(m, (n - 1) as nat);
    }
}

proof fn lemma_pow256_16()
    ensures
        pow256(15) == 0x100_0000_0000_0000_0000_0000_0000_0000,
        pow256(16) == 0x1_0000_0000_0000_0000_0000_0000_0000_0000,
{
    assert(pow256(0) == 1);
    assert(pow256(1) == 0x100);
    assert(pow256(2) == 0x1_0000);
    assert(pow256(3) == 0x100_0000);
    assert(pow256(4) == 0x1_0000_0000);
    assert(pow256(5) == 0x100_0000_0000);
    assert(pow256(6) == 0x1_0000_0000_0000);
    assert(pow256(7) == 0x100_0000_0000_0000);
    assert(pow256(8) == 0x1_0000_0000_0000_0000);
    assert(pow256(9) == 0x100_0000_0000_0000_0000);
    assert(pow256(10) == 0x1_0000_0000_0000_0000_0000);
    assert(pow256(11) == 0x100_0000_0000_0000_0000_0000);
    assert(pow256(12) == 0x1_0000_0000_0000_0000_0000_0000);
    assert(pow256(13) == 0x100_0000_0000_0000_0000_0000_0000);
    assert(pow256(14) == 0x1_0000_0000_0000_0000_0000_0000_0000);
    assert(pow256(15) == 0x100_0000_0000_0000_0000_0000_0000_0000);
    assert(pow256(16) == 0x1_0000_0000_0000_0000_0000_0000_0000_0000);
}

/// Little-endian bytes are below `256^len`.
proof fn lemma_le_unsigned_bound(s: Seq<u8>)
    ensures
        le_unsigned(s) < pow256(s.len()),
    decreases s.len(),
{
    if s.len() > 0 {
        lemma_le_unsigned_bound(s.subrange(1, s.len() as int));
    }
}

/// Appending a byte adds it at the next power of 256.
proof fn lemma_le_unsigned_push(s: Seq<u8>, b: u8)
    ensures
        le_unsigned(s.push(b)) == le_unsigned(s) + pow256(s.len()) * b,
    decreases s.len(),
{
    if s.len() == 0 {
        assert(s.push(b).subrange(1, 1) =~= Seq::<u8>::empty());
        assert(le_unsigned(Seq::<u8>::empty()) == 0);
        assert(le_unsigned(s) == 0);
        assert(pow256(0) == 1);
    } else {
        let t = s.subrange(1, s.len() as int);
        assert(s.push(b).subrange(1, s.len() as int + 1) =~= t.push(b));
        assert(s.push(b)[0] == s[0]);
        lemma_le_unsigned_push(t, b);
        assert(pow256(s.len()) == 256 * pow256(t.len()));
        let p = pow256(t.len());
        assert(256 * (le_unsigned(t) + p * b) == 256 * le_unsigned(t) + (256 * p) * b) by (nonlinear_arith);
    }
}

/// `i128::from_le_bytes`: the integer whose little-endian two's-complement
/// representation is `bytes`.
pub fn i128_from_le_bytes(bytes: [u8; 16]) -> (v: i128)
    ensures
        v == le_i128(bytes@),
{
    let mut u: u128 = 0;
    let mut i: usize = 16;
    while i > 0
        invariant
            0 <= i <= 16,
            bytes@.len() == 16,
            u == le_unsigned(bytes@.subrange(i as int, 16)),
        decreases i,
    {
        let ghost rest = bytes@.subrange(i as int, 16);
        proof {
            lemma_le_unsigned_bound(rest);
            lemma_pow256_mono(rest.len(), 15);
            lemma_pow256_16();
            assert(bytes@.subrange(i - 1, 16).subrange(1, 17 - i) =~= rest);
        }
        u = (bytes[i - 1] as u128) + 256 * u;
        i = i - 1;
    }
    assert(bytes@.subrange(0, 16) =~= bytes@);
    if u >= 0x8000_0000_0000_0000_0000_0000_0000_0000 {
        ((u - 0x8000_0000_0000_0000_0000_0000_0000_0000) as i128) + i128::MIN
    } else {
        u as i128
    }
}

/// `i128::to_le_bytes`: the little-endian two's-complement representation
/// of `v`, which `from_le_bytes` reads back as `v`.
pub fn i128_to_le_bytes(v: i128) -> (bytes: [u8; 16])
    ensures
        le_i128(bytes@) == v,
{
    let u: u128 = if v < 0 {
        ((v - i128::MIN) as u128) + 0x8000_0000_0000_0000_0000_0000_0000_0000
    } else {
        v as u128
    };
    let mut out: Vec<u8> = Vec::new();
    let mut x: u128 = u;
    let mut k: usize = 0;
    assert(out@ =~= Seq::<u8>::empty());
    assert(le_unsigned(out@) == 0);
    assert(pow256(0) == 1);
    while k < 16
        invariant
            0 <= k <= 16,
            out@.len() == k,
            u == le_unsigned(out@) + pow256(k as nat) * x,
        decreases 16 - k,
    {
        let b = (x % 256) as u8;
        proof {
            lemma_le_unsigned_push(out@, b);
            let p = pow256(k as nat);
            assert(p * x == 256 * p * (x / 256) + p * (x % 256)) by (nonlinear_arith);
        }
        out.push(b);
        x = x / 256;
        k = k + 1;
    }
    proof {
        lemma_le_unsigned_bound(out@);
        lemma_pow256_16();
        let p = pow256(16);
        assert(x == 0) by (nonlinear_arith)
            requires u == le_unsigned(out@) + p * x, u < p, le_unsigned(out@) >= 0, x >= 0;
    }
    let bytes: [u8; 16] = [
        out[0], out[1], out[2], out[3], out[4], out[5], out[6], out[7],
        out[8], out[9], out[10], out[11], out[12], out[13], out[14], out[15],
    ];
    assert(bytes@ =~= out@);
    bytes
}

/// Whether two account keys are the same.
pub fn key_eq(a: &Pubkey, b: &Pubkey) -> (r: bool)
    ensures
        r == (a@ == b@),
        r == (*a == *b),
{
    let mut i: usize = 0;
    while i < 32
        invariant
            0 <= i <= 32,
            a@.len() == 32,
            b@.len() == 32,
            forall|j: int| 0 <= j < i ==> a@[j] == b@[j],
        decreases 32 - i,
    {
        if a[i] != b[i] {
            assert(a@[i as int] != b@[i as int]);
            return false;
        }
        i = i + 1;
    }
    assert(a@ =~= b@);
    assert(*a =~= *b);
    true
}

} // verus!
