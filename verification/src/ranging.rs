//! Time stamps exchanged in ranging messages, and the time of flight
//!
//! Ranging messages carry 40-bit DW3000 time stamps as five bytes, most
//! significant first. Double-sided two-way ranging computes the time of
//! flight from six time stamps.

use vstd::prelude::*;

verus! {

/// The five bytes, most significant first, that carry the low 40 bits of `t`
pub open spec fn timestamp_bytes(t: u64) -> Seq<u8> {
    seq![(t >> 32u64) as u8, (t >> 24u64) as u8, (t >> 16u64) as u8, (t >> 8u64) as u8, t as u8]
}

/// The number that five bytes, most significant first, carry
pub open spec fn timestamp_value(b: Seq<u8>) -> nat {
    b[0] as nat * 0x1_0000_0000 + b[1] as nat * 0x100_0000 + b[2] as nat * 0x1_0000 + b[3] as nat * 0x100
        + b[4] as nat
}

/// Writes the time stamp `u64time` into five bytes, most significant first
pub fn convert_u64_u8(u64time: u64, u8_array: &mut [u8; 5])
    ensures
        final(u8_array)@ == timestamp_bytes(u64time),
{
    let mut i: usize = 0;
    while i < 5
        invariant
            i <= 5,
            forall|j: int| 0 <= j < i ==> #[trigger] u8_array@[j] == timestamp_bytes(u64time)[j],
        decreases 5 - i,
    {
        u8_array[i] = #[verifier::truncate] ((u64time >> (8 * (4 - i)) as u64) as u8);
        proof {
            assert(u8_array@[i as int] == timestamp_bytes(u64time)[i as int]) by {
                if i == 0 {
                    assert((8 * (4 - i)) as u64 == 32u64);
                } else if i == 1 {
                    assert((8 * (4 - i)) as u64 == 24u64);
                } else if i == 2 {
                    assert((8 * (4 - i)) as u64 == 16u64);
                } else if i == 3 {
                    assert((8 * (4 - i)) as u64 == 8u64);
                } else {
                    assert((8 * (4 - i)) as u64 == 0u64);
                    assert(u64time >> 0u64 == u64time) by (bit_vector);
                }
            }
        }
        i = i + 1;
    }
    proof {
        assert(u8_array@ =~= timestamp_bytes(u64time));
    }
}

/// Reads a time stamp from the first five bytes of `u8_array`, most
/// significant first
pub fn convert_u8_u64(u8_array: &[u8]) -> (t: u64)
    requires
        u8_array@.len() >= 5,
    ensures
        t == timestamp_value(u8_array@),
{
    let b0 = u8_array[0] as u64;
    let b1 = u8_array[1] as u64;
    let b2 = u8_array[2] as u64;
    let b3 = u8_array[3] as u64;
    let b4 = u8_array[4] as u64;
    proof {
        assert(b0 << 32u64 == b0 * 0x1_0000_0000) by (bit_vector)
            requires b0 < 256;
        assert(b1 << 24u64 == b1 * 0x100_0000) by (bit_vector)
            requires b1 < 256;
        assert(b2 << 16u64 == b2 * 0x1_0000) by (bit_vector)
            requires b2 < 256;
        assert(b3 << 8u64 == b3 * 0x100) by (bit_vector)
            requires b3 < 256;
    }
    (b0 << (8 * 4)) + (b1 << (8 * 3)) + (b2 << (8 * 2)) + (b3 << (8 * 1)) + b4
}

/// A time stamp written as five bytes and read back keeps its low 40 bits.
pub proof fn lemma_timestamp_roundtrip(t: u64)
    ensures
        timestamp_value(timestamp_bytes(t)) == t % 0x100_0000_0000,
{
    let b = timestamp_bytes(t);
    let b0 = ((t >> 32u64) as u8) as u64;
    let b1 = ((t >> 24u64) as u8) as u64;
    let b2 = ((t >> 16u64) as u8) as u64;
    let b3 = ((t >> 8u64) as u8) as u64;
    let b4 = (t as u8) as u64;
    assert(b0 * 0x1_0000_0000 + b1 * 0x100_0000 + b2 * 0x1_0000 + b3 * 0x100 + b4 == t % 0x100_0000_0000)
        by (bit_vector)
        requires
            b0 == ((t >> 32u64) as u8) as u64,
            b1 == ((t >> 24u64) as u8) as u64,
            b2 == ((t >> 16u64) as u8) as u64,
            b3 == ((t >> 8u64) as u8) as u64,
            b4 == (t as u8) as u64,
    ;
}

/// Five bytes read as a time stamp and written back are the same bytes.
pub proof fn lemma_timestamp_bytes_roundtrip(b: Seq<u8>)
    requires
        b.len() == 5,
    ensures
        timestamp_bytes(timestamp_value(b) as u64) == b,
{
    let b0 = b[0] as u64;
    let b1 = b[1] as u64;
    let b2 = b[2] as u64;
    let b3 = b[3] as u64;
    let b4 = b[4] as u64;
    let t = (b0 * 0x1_0000_0000 + b1 * 0x100_0000 + b2 * 0x1_0000 + b3 * 0x100 + b4) as u64;
    assert(timestamp_value(b) == t);
    assert((t >> 32u64) as u8 == b0 && (t >> 24u64) as u8 == b1 && (t >> 16u64) as u8 == b2
        && (t >> 8u64) as u8 == b3 && t as u8 == b4) by (bit_vector)
        requires
            b0 < 256,
            b1 < 256,
            b2 < 256,
            b3 < 256,
            b4 < 256,
            t == (b0 * 0x1_0000_0000 + b1 * 0x100_0000 + b2 * 0x1_0000 + b3 * 0x100 + b4) as u64,
    ;
    assert(timestamp_bytes(t) =~= b);
}

/// The time of flight, in DW3000 time units, that double-sided two-way
/// ranging computes from the six time stamps of its three messages
pub open spec fn tof_ticks_double_spec(t1: u64, t2: u64, t3: u64, t4: u64, t5: u64, t6: u64) -> int {
    let tround1 = t4 - t1;
    let treply1 = t3 - t2;
    let tround2 = t6 - t3;
    let treply2 = t5 - t4;
    (tround1 * tround2 - treply1 * treply2) / (tround1 + treply1 + tround2 + treply2)
}

/// Double-sided two-way ranging is exact for a consistent exchange: where
/// each round trip is twice the flight time `d` plus the other side's reply
/// time, the result is `d`, whatever the reply times.
pub proof fn lemma_tof_double_consistent_exchange(t1: u64, t2: u64, t3: u64, t4: u64, t5: u64, t6: u64, d: int)
    requires
        d >= 0,
        t2 <= t3,
        t4 <= t5,
        t4 - t1 == 2 * d + (t3 - t2),
        t6 - t3 == 2 * d + (t5 - t4),
        d > 0 || t2 < t3 || t4 < t5,
    ensures
        tof_ticks_double_spec(t1, t2, t3, t4, t5, t6) == d,
{
    let r1: int = t3 - t2;
    let r2: int = t5 - t4;
    let den: int = 4 * d + 2 * r1 + 2 * r2;
    assert((2 * d + r1) * (2 * d + r2) - r1 * r2 == den * d) by (nonlinear_arith)
        requires
            den == 4 * d + 2 * r1 + 2 * r2,
    ;
    assert((2 * d + r1) + r1 + (2 * d + r2) + r2 == den);
    assert(den > 0);
    vstd::arithmetic::div_mod::lemma_div_multiples_vanish(d, den);
}

/// The time of flight of double-sided two-way ranging, in DW3000 time units
/// (rounded down): the initiator sends at `t1`, the responder receives at
/// `t2` and replies at `t3`, the initiator receives at `t4` and answers at
/// `t5`, which the responder receives at `t6`
pub fn tof_ticks_double(t1: u64, t2: u64, t3: u64, t4: u64, t5: u64, t6: u64) -> (r: u128)
    requires
        t1 <= t4,
        t2 <= t3,
        t3 <= t6,
        t4 <= t5,
        (t4 - t1) * (t6 - t3) >= (t3 - t2) * (t5 - t4),
        (t4 - t1) + (t3 - t2) + (t6 - t3) + (t5 - t4) > 0,
    ensures
        r == tof_ticks_double_spec(t1, t2, t3, t4, t5, t6),
{
    let tround1: u64 = t4 - t1;
    let treply1: u64 = t3 - t2;
    let tround2: u64 = t6 - t3;
    let treply2: u64 = t5 - t4;
    proof {
        assert(tround1 * tround2 <= 0xffff_ffff_ffff_ffff * 0xffff_ffff_ffff_ffff) by (nonlinear_arith)
            requires tround1 <= 0xffff_ffff_ffff_ffff, tround2 <= 0xffff_ffff_ffff_ffff;
        assert(treply1 * treply2 <= 0xffff_ffff_ffff_ffff * 0xffff_ffff_ffff_ffff) by (nonlinear_arith)
            requires treply1 <= 0xffff_ffff_ffff_ffff, treply2 <= 0xffff_ffff_ffff_ffff;
    }
    let num: u128 = (tround1 as u128 * tround2 as u128) - (treply1 as u128 * treply2 as u128);
    let den: u128 = tround1 as u128 + treply1 as u128 + tround2 as u128 + treply2 as u128;
    num / den
}

} // verus!
