//! The commitment encoder: turns a fixed-length little-endian byte buffer
//! (challenge seed, prover identity, commitment root) into the canonical
//! field-element encoding the proof system requires, rejecting any buffer
//! whose value is not strictly below the field modulus.

use vstd::prelude::*;
use crate::error::PostError;

verus! {

/// The width in bytes of the field's canonical encoding.
pub const COMMITMENT_BYTES: usize = 32;

/// The value of a byte sequence read as a little-endian integer.
pub open spec fn le_val(s: Seq<u8>) -> nat
    decreases s.len(),
{
    if s.len() == 0 {
        0
    } else {
        (s[0] as nat) + 256 * le_val(s.skip(1))
    }
}

/// 256 to the power `k`: the number of values `k` bytes can take.
pub open spec fn pow256(k: nat) -> nat
    decreases k,
{
    if k == 0 {
        1
    } else {
        256 * pow256((k - 1) as nat)
    }
}

/// The modulus of the proof system's scalar field: only values strictly
/// below it have a canonical byte encoding.
pub open spec fn field_modulus() -> nat {
    0x73eda753299d7d483339d80809a1d80553bda402fffe5bfeffffffff00000001nat
}

/// A buffer is a safe commitment encoding when it has the canonical width
/// and its little-endian value lies below the field modulus.
pub open spec fn encode_ok(s: Seq<u8>) -> bool {
    s.len() == COMMITMENT_BYTES && le_val(s) < field_modulus()
}

/// The little-endian limbs of the field modulus, least significant first.
const MODULUS_LIMB_0: u64 = 0xffffffff00000001;
const MODULUS_LIMB_1: u64 = 0x53bda402fffe5bfe;
const MODULUS_LIMB_2: u64 = 0x3339d80809a1d805;
const MODULUS_LIMB_3: u64 = 0x73eda753299d7d48;

/// A value below `pow256(k)` occupies no more than `k` bytes.
proof fn lemma_le_val_bound(s: Seq<u8>)
    ensures
        le_val(s) < pow256(s.len()),
    decreases s.len(),
{
    if s.len() > 0 {
        lemma_le_val_bound(s.skip(1));
    }
}

/// Splitting a buffer at `k` splits its value: the low `k` bytes plus
/// `pow256(k)` times the value of the rest.
proof fn lemma_le_val_split(s: Seq<u8>, k: int)
    requires
        0 <= k <= s.len(),
    ensures
        le_val(s) == le_val(s.take(k)) + pow256(k as nat) * le_val(s.skip(k)),
    decreases k,
{
    if k == 0 {
        assert(s.take(0) =~= Seq::<u8>::empty());
        assert(s.skip(0) =~= s);
        assert(le_val(s.take(0)) == 0);
        assert(pow256(0) == 1);
        vstd::arithmetic::mul::lemma_mul_basics(le_val(s) as int);
        assert(le_val(s) == le_val(s.take(k)) + pow256(k as nat) * le_val(s.skip(k)));
    } else {
        let s1 = s.skip(1);
        lemma_le_val_split(s1, k - 1);
        let a = le_val(s1.take(k - 1));
        let p = pow256((k - 1) as nat);
        let c = le_val(s1.skip(k - 1));
        assert(s1.take(k - 1) =~= s.take(k).skip(1));
        assert(s1.skip(k - 1) =~= s.skip(k));
        assert(le_val(s) == (s[0] as nat) + 256 * le_val(s1));
        assert(le_val(s1) == a + p * c);
        assert(s.take(k).len() != 0);
        assert(s.take(k)[0] == s[0]);
        assert(le_val(s.take(k)) == (s[0] as nat) + 256 * a);
        assert(256 * (a + p * c) == 256 * a + (256 * p) * c) by (nonlinear_arith);
        assert(pow256(k as nat) == 256 * p);
        assert(le_val(s) == (s[0] as nat) + 256 * a + (256 * p) * c);
        assert(le_val(s.skip(k)) == c);
        assert(pow256(k as nat) * le_val(s.skip(k)) == (256 * p) * c);
        assert(le_val(s) == le_val(s.take(k)) + pow256(k as nat) * le_val(s.skip(k)));
    }
}

/// Comparing two numbers given by a low digit below `b` and a high part:
/// the high parts decide, and the low digits break a tie.
proof fn lemma_digits_compare(lo1: nat, hi1: nat, lo2: nat, hi2: nat, b: nat)
    requires
        lo1 < b,
        lo2 < b,
    ensures
        (lo1 + b * hi1 < lo2 + b * hi2) <==> (hi1 < hi2 || (hi1 == hi2 && lo1 < lo2)),
        (lo1 + b * hi1 == lo2 + b * hi2) <==> (hi1 == hi2 && lo1 == lo2),
{
    if hi1 < hi2 {
        vstd::arithmetic::mul::lemma_mul_inequality(hi1 as int + 1, hi2 as int, b as int);
        assert((hi1 + 1) * b == hi1 * b + b) by (nonlinear_arith);
        assert(lo1 + b * hi1 < lo2 + b * hi2);
    } else if hi2 < hi1 {
        vstd::arithmetic::mul::lemma_mul_inequality(hi2 as int + 1, hi1 as int, b as int);
        assert((hi2 + 1) * b == hi2 * b + b) by (nonlinear_arith);
        assert(lo2 + b * hi2 < lo1 + b * hi1);
    }
}

/// Reads the eight bytes starting at `start` as one little-endian limb.
fn read_limb(buf: &[u8; 32], start: usize) -> (r: u64)
    requires
        start + 8 <= 32,
    ensures
        r as nat == le_val(buf@.subrange(start as int, start as int + 8)),
{
    let mut r: u64 = 0;
    let mut i: usize = 8;
    while i > 0
        invariant
            start + 8 <= 32,
            i <= 8,
            r as nat == le_val(buf@.subrange(start as int + i as int, start as int + 8)),
            (r as nat) < pow256((8 - i) as nat),
        decreases i,
    {
        i = i - 1;
        let lo = start + i;
        proof {
            let t = buf@.subrange(lo as int, start as int + 8);
            assert(t.skip(1) =~= buf@.subrange(lo as int + 1, start as int + 8));
            assert(le_val(t) == (buf@[lo as int] as nat) + 256 * le_val(t.skip(1)));
            assert(pow256((8 - i) as nat) == 256 * pow256((8 - i - 1) as nat));
            reveal_with_fuel(pow256, 9);
            assert(pow256(7) == 0x100000000000000);
            lemma_pow256_monotone((8 - i - 1) as nat, 7);
        }
        r = r * 256 + (buf[lo] as u64);
    }
    proof {
        assert(buf@.subrange(start as int, start as int + 8) =~= buf@.subrange(
            start as int + 0int,
            start as int + 8,
        ));
    }
    r
}

/// `pow256` grows with its exponent.
proof fn lemma_pow256_monotone(j: nat, k: nat)
    requires
        j <= k,
    ensures
        pow256(j) <= pow256(k),
    decreases k,
{
    if j < k {
        lemma_pow256_monotone(j, (k - 1) as nat);
        assert(pow256(k) == 256 * pow256((k - 1) as nat));
        assert(256 * pow256((k - 1) as nat) >= pow256((k - 1) as nat)) by (nonlinear_arith);
    }
}

/// Decides whether the buffer's little-endian value lies below the field
/// modulus, by comparing its four 64-bit limbs from the most significant
/// limb down.
fn is_below_modulus(buf: &[u8; 32]) -> (r: bool)
    ensures
        r <==> le_val(buf@) < field_modulus(),
{
    let l0 = read_limb(buf, 0);
    let l1 = read_limb(buf, 8);
    let l2 = read_limb(buf, 16);
    let l3 = read_limb(buf, 24);
    proof {
        lemma_limb_decomposition(buf@, l0 as nat, l1 as nat, l2 as nat, l3 as nat);
    }
    if l3 != MODULUS_LIMB_3 {
        l3 < MODULUS_LIMB_3
    } else if l2 != MODULUS_LIMB_2 {
        l2 < MODULUS_LIMB_2
    } else if l1 != MODULUS_LIMB_1 {
        l1 < MODULUS_LIMB_1
    } else {
        l0 < MODULUS_LIMB_0
    }
}

/// A 32-byte buffer's value in terms of its four little-endian limbs, and
/// the limb-wise order against the modulus limbs.
proof fn lemma_limb_decomposition(s: Seq<u8>, l0: nat, l1: nat, l2: nat, l3: nat)
    requires
        s.len() == 32,
        l0 == le_val(s.subrange(0, 8)),
        l1 == le_val(s.subrange(8, 16)),
        l2 == le_val(s.subrange(16, 24)),
        l3 == le_val(s.subrange(24, 32)),
    ensures
        (le_val(s) < field_modulus()) <==> (l3 < MODULUS_LIMB_3 || (l3 == MODULUS_LIMB_3 && (l2
            < MODULUS_LIMB_2 || (l2 == MODULUS_LIMB_2 && (l1 < MODULUS_LIMB_1 || (l1
            == MODULUS_LIMB_1 && l0 < MODULUS_LIMB_0)))))),
{
    let b: nat = pow256(8);
    assert(b == 0x10000000000000000nat) by {
        reveal_with_fuel(pow256, 9);
    }
    lemma_le_val_split(s, 8);
    assert(s.take(8) =~= s.subrange(0, 8));
    let s8 = s.skip(8);
    lemma_le_val_split(s8, 8);
    assert(s8.take(8) =~= s.subrange(8, 16));
    let s16 = s8.skip(8);
    assert(s16 =~= s.skip(16));
    lemma_le_val_split(s16, 8);
    assert(s16.take(8) =~= s.subrange(16, 24));
    assert(s16.skip(8) =~= s.subrange(24, 32));

    lemma_le_val_bound(s.subrange(0, 8));
    lemma_le_val_bound(s.subrange(8, 16));
    lemma_le_val_bound(s.subrange(16, 24));
    lemma_le_val_bound(s.subrange(24, 32));
    assert(s.subrange(0, 8).len() == 8);

    let hi2: nat = l2 + b * l3;
    let hi1: nat = l1 + b * hi2;
    assert(le_val(s) == l0 + b * hi1);
    let m3: nat = MODULUS_LIMB_3 as nat;
    let m2: nat = MODULUS_LIMB_2 as nat;
    let m1: nat = MODULUS_LIMB_1 as nat;
    let m0: nat = MODULUS_LIMB_0 as nat;
    let n2: nat = m2 + b * m3;
    let n1: nat = m1 + b * n2;
    assert(field_modulus() == m0 + b * n1);

    lemma_digits_compare(l2, l3, m2, m3, b);
    assert(hi2 < b * b) by (nonlinear_arith)
        requires
            l2 < b && l3 < b && hi2 == l2 + b * l3,
    ;
    assert(n2 < b * b) by (nonlinear_arith)
        requires
            m2 < b && m3 < b && n2 == m2 + b * m3,
    ;
    lemma_digits_compare(l1, hi2, m1, n2, b);
    lemma_digits_compare(l0, hi1, m0, n1, b);
}

/// One commitment buffer, already checked to encode a canonical field
/// element: its little-endian value lies below the field modulus.
#[derive(Debug, Clone, Copy)]
pub struct SafeCommitment {
    bytes: [u8; 32],
}

impl View for SafeCommitment {
    type V = Seq<u8>;

    closed spec fn view(&self) -> Seq<u8> {
        self.bytes@
    }
}

impl SafeCommitment {
    /// Every value of this type carries a canonical encoding.
    pub open spec fn wf(self) -> bool {
        encode_ok(self@)
    }

    /// The canonical byte encoding of the commitment, unchanged from the
    /// buffer it was built from: decoding then re-encoding is the identity.
    pub fn as_bytes(&self) -> (r: [u8; 32])
        ensures
            r@ == self@,
    {
        self.bytes
    }
}

/// Encodes a fixed-length buffer as a canonical field element. Returns the
/// commitment exactly when the buffer's little-endian value lies below the
/// field modulus; otherwise fails with `InvalidCommitment`, carrying the
/// caller's label for the buffer. Pure: no side effects.
pub fn as_safe_commitment(comm: &[u8; 32], commitment_name: &str) -> (r: Result<
    SafeCommitment,
    PostError,
>)
    ensures
        r is Ok <==> encode_ok(comm@),
        r matches Ok(c) ==> c@ == comm@ && c.wf(),
        r matches Err(e) ==> (e matches PostError::InvalidCommitment(label) && label@
            == commitment_name@),
{
    if is_below_modulus(comm) {
        Ok(SafeCommitment { bytes: *comm })
    } else {
        let label = commitment_name.to_string();
        proof {
            broadcast use vstd::string::to_string_from_display_ensures_for_str;

        }
        Err(PostError::InvalidCommitment(label))
    }
}

} // verus!
