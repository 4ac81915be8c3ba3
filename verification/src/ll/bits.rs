//! Bit fields in little-endian byte strings.
//!
//! Register contents are byte strings in which bit `i` is bit `i % 8` of
//! byte `i / 8`. A field is a run of consecutive bits; its value is the
//! number whose binary digits those bits are, least significant first.

use vstd::prelude::*;
use vstd::arithmetic::power2::*;
use vstd::arithmetic::div_mod::*;

verus! {

/// Bit `i` of the byte string `s`.
pub open spec fn bit_of(s: Seq<u8>, i: int) -> bool {
    (s[i / 8] >> ((i % 8) as u8)) & 1u8 == 1u8
}

/// The value of the `n` bits of `s` that start at bit `lo`.
pub open spec fn bits_val(s: Seq<u8>, lo: int, n: nat) -> nat
    decreases n,
{
    if n == 0 {
        0
    } else {
        2 * bits_val(s, lo + 1, (n - 1) as nat) + if bit_of(s, lo) {
            1nat
        } else {
            0nat
        }
    }
}

/// Binary digit `k` of the number `v`.
pub open spec fn nat_bit(v: nat, k: nat) -> bool {
    (v / pow2(k)) % 2 == 1
}

/// The bits of `t` after the `n` bits starting at `lo` of `s` were given the
/// low `n` binary digits of `v`, every other bit keeping its value in `s`.
pub open spec fn bits_written(s: Seq<u8>, t: Seq<u8>, lo: int, n: nat, v: nat) -> bool {
    &&& t.len() == s.len()
    &&& forall|i: int|
        0 <= i < 8 * s.len() ==> #[trigger] bit_of(t, i) == if lo <= i < lo + n {
            nat_bit(v, (i - lo) as nat)
        } else {
            bit_of(s, i)
        }
}

proof fn lemma_pow2_zero()
    ensures
        pow2(0) == 1,
{
    lemma2_to64();
}

proof fn lemma_pow2_128()
    ensures
        pow2(64) == 0x1_0000_0000_0000_0000,
        pow2(128) == 0x1_0000_0000_0000_0000_0000_0000_0000_0000,
{
    lemma2_to64();
    lemma_pow2_adds(64, 64);
}

/// A field of `n` bits is below `2^n`.
pub proof fn lemma_bits_val_bound(s: Seq<u8>, lo: int, n: nat)
    ensures
        bits_val(s, lo, n) < pow2(n),
    decreases n,
{
    lemma_pow2_zero();
    if n > 0 {
        lemma_bits_val_bound(s, lo + 1, (n - 1) as nat);
        lemma_pow2_unfold(n);
    }
}

proof fn lemma_nat_bit_half(v: nat, k: nat)
    ensures
        nat_bit(v, k + 1) == nat_bit(v / 2, k),
{
    lemma_pow2_pos(k);
    lemma_pow2_unfold(k + 1);
    lemma_div_denominator(v as int, 2, pow2(k) as int);
    assert(pow2(k + 1) == 2 * pow2(k));
}

/// A field whose bits are the binary digits of `v` has the value of `v`
/// reduced to the field's width.
pub proof fn lemma_bits_val_of_digits(s: Seq<u8>, lo: int, n: nat, v: nat)
    requires
        forall|k: nat| k < n ==> #[trigger] bit_of(s, lo + k) == nat_bit(v, k),
    ensures
        bits_val(s, lo, n) == v % pow2(n),
    decreases n,
{
    lemma_pow2_zero();
    if n == 0 {
        assert(v % 1 == 0);
    } else {
        assert forall|k: nat| k < (n - 1) as nat implies #[trigger] bit_of(s, (lo + 1) + k) == nat_bit(
            v / 2,
            k,
        ) by {
            lemma_nat_bit_half(v, k);
            assert(bit_of(s, lo + (k + 1) as nat) == nat_bit(v, (k + 1) as nat));
            assert(lo + (k + 1) as nat == (lo + 1) + k);
        }
        lemma_bits_val_of_digits(s, lo + 1, (n - 1) as nat, v / 2);
        assert(bit_of(s, lo + 0nat) == nat_bit(v, 0));
        assert(lo + 0nat == lo);
        assert(pow2(0) == 1);
        lemma_pow2_unfold(n);
        lemma_pow2_pos((n - 1) as nat);
        lemma_breakdown(v as int, 2, pow2((n - 1) as nat) as int);
    }
}

/// Fields that agree bit by bit have equal values.
pub proof fn lemma_bits_val_frame(s1: Seq<u8>, s2: Seq<u8>, lo: int, n: nat)
    requires
        forall|k: nat| k < n ==> #[trigger] bit_of(s1, lo + k) == bit_of(s2, lo + k),
    ensures
        bits_val(s1, lo, n) == bits_val(s2, lo, n),
    decreases n,
{
    if n > 0 {
        assert forall|k: nat| k < (n - 1) as nat implies #[trigger] bit_of(s1, (lo + 1) + k)
            == bit_of(s2, (lo + 1) + k) by {
            assert(bit_of(s1, lo + (k + 1) as nat) == bit_of(s2, lo + (k + 1) as nat));
            assert(lo + (k + 1) as nat == (lo + 1) + k);
        }
        assert(bit_of(s1, lo + 0nat) == bit_of(s2, lo + 0nat));
        assert(lo + 0nat == lo);
        lemma_bits_val_frame(s1, s2, lo + 1, (n - 1) as nat);
    }
}

/// Reducing a field's value to `m` bits gives the field of its low `m` bits.
pub proof fn lemma_bits_val_truncate(s: Seq<u8>, lo: int, n: nat, m: nat)
    requires
        m <= n,
    ensures
        bits_val(s, lo, n) % pow2(m) == bits_val(s, lo, m),
    decreases m,
{
    lemma_pow2_zero();
    if m == 0 {
        assert(bits_val(s, lo, n) % 1 == 0);
    } else {
        let x = bits_val(s, lo + 1, (n - 1) as nat);
        let b: nat = if bit_of(s, lo) {
            1
        } else {
            0
        };
        lemma_bits_val_truncate(s, lo + 1, (n - 1) as nat, (m - 1) as nat);
        lemma_pow2_unfold(m);
        lemma_pow2_pos((m - 1) as nat);
        lemma_breakdown((2 * x + b) as int, 2, pow2((m - 1) as nat) as int);
        assert((2 * x + b) / 2 == x);
        assert((2 * x + b) % 2 == b);
    }
}

proof fn lemma_byte_bit_set(b: u8, j: u8, t: u8)
    by (bit_vector)
    requires
        j < 8,
        t < 8,
    ensures
        ((b | (1u8 << j)) >> t) & 1u8 == 1u8 <==> (t == j || (b >> t) & 1u8 == 1u8),
        ((b & !(1u8 << j)) >> t) & 1u8 == 1u8 <==> (t != j && (b >> t) & 1u8 == 1u8),
{
}

proof fn lemma_bit_is_0_or_1(b: u8, t: u8)
    by (bit_vector)
    ensures
        (b >> t) & 1u8 <= 1u8,
{
}

proof fn lemma_byte_from_bits(a: u8, b: u8)
    by (bit_vector)
    requires
        (a >> 0u8) & 1u8 == (b >> 0u8) & 1u8,
        (a >> 1u8) & 1u8 == (b >> 1u8) & 1u8,
        (a >> 2u8) & 1u8 == (b >> 2u8) & 1u8,
        (a >> 3u8) & 1u8 == (b >> 3u8) & 1u8,
        (a >> 4u8) & 1u8 == (b >> 4u8) & 1u8,
        (a >> 5u8) & 1u8 == (b >> 5u8) & 1u8,
        (a >> 6u8) & 1u8 == (b >> 6u8) & 1u8,
        (a >> 7u8) & 1u8 == (b >> 7u8) & 1u8,
    ensures
        a == b,
{
}

proof fn lemma_byte_bit_agrees(s1: Seq<u8>, s2: Seq<u8>, j: int, t: u8)
    requires
        s1.len() == s2.len(),
        0 <= j < s1.len(),
        t < 8,
        forall|i: int| 0 <= i < 8 * s1.len() ==> #[trigger] bit_of(s1, i) == bit_of(s2, i),
    ensures
        (s1[j] >> t) & 1u8 == (s2[j] >> t) & 1u8,
{
    assert(bit_of(s1, 8 * j + t) == bit_of(s2, 8 * j + t));
    assert((8 * j + t) / 8 == j);
    assert((8 * j + t) % 8 == t);
    lemma_bit_is_0_or_1(s1[j], t);
    lemma_bit_is_0_or_1(s2[j], t);
}

/// Byte strings of one length that agree on every bit are equal.
pub proof fn lemma_bytes_eq_from_bits(s1: Seq<u8>, s2: Seq<u8>)
    requires
        s1.len() == s2.len(),
        forall|i: int| 0 <= i < 8 * s1.len() ==> #[trigger] bit_of(s1, i) == bit_of(s2, i),
    ensures
        s1 == s2,
{
    assert forall|j: int| 0 <= j < s1.len() implies s1[j] == s2[j] by {
        lemma_byte_bit_agrees(s1, s2, j, 0);
        lemma_byte_bit_agrees(s1, s2, j, 1);
        lemma_byte_bit_agrees(s1, s2, j, 2);
        lemma_byte_bit_agrees(s1, s2, j, 3);
        lemma_byte_bit_agrees(s1, s2, j, 4);
        lemma_byte_bit_agrees(s1, s2, j, 5);
        lemma_byte_bit_agrees(s1, s2, j, 6);
        lemma_byte_bit_agrees(s1, s2, j, 7);
        lemma_byte_from_bits(s1[j], s2[j]);
    }
    assert(s1 =~= s2);
}

/// After a write, the written bits hold the written value, reduced to
/// their width.
pub proof fn lemma_written_reads_back(s: Seq<u8>, t: Seq<u8>, lo: int, n: nat, v: nat)
    requires
        bits_written(s, t, lo, n, v),
        0 <= lo,
        lo + n <= 8 * s.len(),
    ensures
        bits_val(t, lo, n) == v % pow2(n),
{
    assert forall|k: nat| k < n implies #[trigger] bit_of(t, lo + k) == nat_bit(v, k) by {
        assert(bit_of(t, lo + k) == nat_bit(v, (lo + k - lo) as nat));
    }
    lemma_bits_val_of_digits(t, lo, n, v);
}

/// A write leaves every run of bits outside the written bits as it was.
pub proof fn lemma_written_frame(s: Seq<u8>, t: Seq<u8>, lo: int, n: nat, v: nat, lo2: int, n2: nat)
    requires
        bits_written(s, t, lo, n, v),
        0 <= lo2,
        lo2 + n2 <= 8 * s.len(),
        lo2 + n2 <= lo || lo + n <= lo2,
    ensures
        bits_val(t, lo2, n2) == bits_val(s, lo2, n2),
{
    assert forall|k: nat| k < n2 implies #[trigger] bit_of(t, lo2 + k) == bit_of(s, lo2 + k) by {
        assert(0 <= lo2 + k < 8 * s.len());
    }
    lemma_bits_val_frame(t, s, lo2, n2);
}

/// A write leaves every byte that holds none of the written bits as it was.
pub proof fn lemma_written_keeps_byte(s: Seq<u8>, t: Seq<u8>, lo: int, n: nat, v: nat, j: int)
    requires
        bits_written(s, t, lo, n, v),
        0 <= j < s.len(),
        8 * j + 8 <= lo || lo + n <= 8 * j,
    ensures
        t[j] == s[j],
{
    assert forall|i: int| 0 <= i < 8 * t.len() && i / 8 == j implies #[trigger] bit_of(t, i) == bit_of(s, i) by {}
    lemma_byte_agrees(t, s, j, 0);
    lemma_byte_agrees(t, s, j, 1);
    lemma_byte_agrees(t, s, j, 2);
    lemma_byte_agrees(t, s, j, 3);
    lemma_byte_agrees(t, s, j, 4);
    lemma_byte_agrees(t, s, j, 5);
    lemma_byte_agrees(t, s, j, 6);
    lemma_byte_agrees(t, s, j, 7);
    lemma_byte_from_bits(t[j], s[j]);
}

proof fn lemma_byte_agrees(s1: Seq<u8>, s2: Seq<u8>, j: int, t: u8)
    requires
        s1.len() == s2.len(),
        0 <= j < s1.len(),
        t < 8,
        forall|i: int| 0 <= i < 8 * s1.len() && i / 8 == j ==> #[trigger] bit_of(s1, i) == bit_of(s2, i),
    ensures
        (s1[j] >> t) & 1u8 == (s2[j] >> t) & 1u8,
{
    assert((8 * j + t) / 8 == j);
    assert((8 * j + t) % 8 == t);
    assert(bit_of(s1, 8 * j + t) == bit_of(s2, 8 * j + t));
    lemma_bit_is_0_or_1(s1[j], t);
    lemma_bit_is_0_or_1(s2[j], t);
}

/// Writing the same bits twice gives what the second write alone gives.
pub proof fn lemma_written_twice(s: Seq<u8>, t1: Seq<u8>, t2: Seq<u8>, t3: Seq<u8>, lo: int, n: nat, v1: nat, v2: nat)
    requires
        bits_written(s, t1, lo, n, v1),
        bits_written(t1, t2, lo, n, v2),
        bits_written(s, t3, lo, n, v2),
    ensures
        t2 == t3,
{
    assert forall|i: int| 0 <= i < 8 * t2.len() implies #[trigger] bit_of(t2, i) == bit_of(t3, i) by {
        assert(bit_of(t2, i) == if lo <= i < lo + n { nat_bit(v2, (i - lo) as nat) } else { bit_of(t1, i) });
        assert(bit_of(t1, i) == if lo <= i < lo + n { nat_bit(v1, (i - lo) as nat) } else { bit_of(s, i) });
        assert(bit_of(t3, i) == if lo <= i < lo + n { nat_bit(v2, (i - lo) as nat) } else { bit_of(s, i) });
    }
    lemma_bytes_eq_from_bits(t2, t3);
}

/// Writes to disjoint runs of bits can be made in either order.
pub proof fn lemma_written_commute(
    s: Seq<u8>,
    a: Seq<u8>,
    b: Seq<u8>,
    c: Seq<u8>,
    d: Seq<u8>,
    lo1: int,
    n1: nat,
    v1: nat,
    lo2: int,
    n2: nat,
    v2: nat,
)
    requires
        lo1 + n1 <= lo2 || lo2 + n2 <= lo1,
        bits_written(s, a, lo1, n1, v1),
        bits_written(a, b, lo2, n2, v2),
        bits_written(s, c, lo2, n2, v2),
        bits_written(c, d, lo1, n1, v1),
    ensures
        b == d,
{
    assert forall|i: int| 0 <= i < 8 * b.len() implies #[trigger] bit_of(b, i) == bit_of(d, i) by {
        assert(bit_of(b, i) == if lo2 <= i < lo2 + n2 { nat_bit(v2, (i - lo2) as nat) } else { bit_of(a, i) });
        assert(bit_of(a, i) == if lo1 <= i < lo1 + n1 { nat_bit(v1, (i - lo1) as nat) } else { bit_of(s, i) });
        assert(bit_of(d, i) == if lo1 <= i < lo1 + n1 { nat_bit(v1, (i - lo1) as nat) } else { bit_of(c, i) });
        assert(bit_of(c, i) == if lo2 <= i < lo2 + n2 { nat_bit(v2, (i - lo2) as nat) } else { bit_of(s, i) });
    }
    lemma_bytes_eq_from_bits(b, d);
}

/// Reads the `n` bits of `s` that start at bit `lo`.
pub fn get_bits(s: &[u8], lo: usize, n: usize) -> (r: u128)
    requires
        n <= 128,
        lo + n <= 8 * s@.len(),
        lo + n <= usize::MAX,
    ensures
        r == bits_val(s@, lo as int, n as nat),
{
    let mut acc: u128 = 0;
    let mut i: usize = n;
    while i > 0
        invariant
            i <= n <= 128,
            lo + n <= 8 * s@.len(),
            lo + n <= usize::MAX,
            acc == bits_val(s@, lo + i, (n - i) as nat),
        decreases i,
    {
        proof {
            lemma_bits_val_bound(s@, lo + i, (n - i) as nat);
            lemma_pow2_128();
            if n - i < 127 {
                lemma_pow2_strictly_increases((n - i) as nat, 127);
            }
            lemma_pow2_unfold(128);
        }
        i = i - 1;
        let p: usize = lo + i;
        let byte: u8 = s[p / 8];
        let b: u8 = (byte >> ((p % 8) as u8)) & 1u8;
        proof {
            lemma_bit_is_0_or_1(byte, (p % 8) as u8);
        }
        acc = acc * 2 + b as u128;
    }
    acc
}

/// Gives the `n` bits of `s` that start at bit `lo` the low `n` binary
/// digits of `v`; every other bit keeps its value.
pub fn set_bits(s: &mut Vec<u8>, lo: usize, n: usize, v: u128)
    requires
        n <= 128,
        lo + n <= 8 * old(s)@.len(),
        lo + n <= usize::MAX,
    ensures
        bits_written(old(s)@, final(s)@, lo as int, n as nat, v as nat),
{
    let ghost s0 = s@;
    let mut k: usize = 0;
    let mut rest: u128 = v;
    proof {
        assert(pow2(0) == 1) by {
            lemma_pow2_zero();
        }
    }
    while k < n
        invariant
            k <= n <= 128,
            lo + n <= 8 * s0.len(),
            lo + n <= usize::MAX,
            s@.len() == s0.len(),
            rest == (v as nat) / pow2(k as nat),
            forall|i: int|
                0 <= i < 8 * s0.len() ==> #[trigger] bit_of(s@, i) == if lo <= i < lo + k {
                    nat_bit(v as nat, (i - lo) as nat)
                } else {
                    bit_of(s0, i)
                },
        decreases n - k,
    {
        let p: usize = lo + k;
        let idx: usize = p / 8;
        let j: u8 = (p % 8) as u8;
        let bit: bool = rest % 2 == 1;
        let old_byte: u8 = s[idx];
        let new_byte: u8 = if bit {
            old_byte | (1u8 << j)
        } else {
            old_byte & !(1u8 << j)
        };
        let ghost prev = s@;
        s.set(idx, new_byte);
        proof {
            assert forall|i: int| 0 <= i < 8 * s0.len() implies #[trigger] bit_of(s@, i) == if lo
                <= i < lo + (k + 1) {
                nat_bit(v as nat, (i - lo) as nat)
            } else {
                bit_of(s0, i)
            } by {
                assert(bit_of(prev, i) == if lo <= i < lo + k {
                    nat_bit(v as nat, (i - lo) as nat)
                } else {
                    bit_of(s0, i)
                });
                if i / 8 == idx {
                    lemma_byte_bit_set(old_byte, j, (i % 8) as u8);
                } else {
                    assert(s@[i / 8] == prev[i / 8]);
                }
            }
            lemma_pow2_pos(k as nat);
            lemma_pow2_unfold((k + 1) as nat);
            lemma_div_denominator(v as int, pow2(k as nat) as int, 2);
        }
        rest = rest / 2;
        k = k + 1;
    }
}

} // verus!
