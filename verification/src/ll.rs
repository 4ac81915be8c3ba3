//! Register-level interface to the DW3000
//!
//! This module implements a register-level interface to the DW3000. Users of
//! this library should typically not need to use this. Please consider using
//! the high-level interface instead.
//!
//! **NOTE**: Many field access methods accept types that have a larger number
//! of bits than the field actually consists of. If you use such a method to
//! pass a value that is too large to be written to the field, it will be
//! silently truncated.
//!
//! Every register value carries the two header bytes of the SPI transaction
//! in front of the register's contents, so that one buffer can be clocked
//! out and in as it is. Field bit `k` of a register is bit `16 + k` of that
//! buffer.

use vstd::prelude::*;
use vstd::slice::SliceAdditionalExecFns;

pub mod bits;
pub mod registers;

use crate::ll::bits::{
    bit_of, bits_val, bits_written, get_bits, lemma_bits_val_bound, lemma_bits_val_of_digits,
    lemma_bits_val_frame, lemma_bits_val_truncate, nat_bit,
    lemma_written_commute, lemma_written_frame, lemma_written_keeps_byte, lemma_written_reads_back,
    lemma_written_twice, set_bits,
};
use vstd::arithmetic::power2::{pow2, lemma2_to64, lemma_pow2_strictly_increases};

verus! {

/// Length of the header that precedes the register contents
pub const HEADER_LEN: usize = 2;

/// Fields of registers end below this bit; it keeps every position in range
/// of `usize`
pub const MAX_FIELD_BIT: usize = 0x10_0000;

/// Implemented for all registers
///
/// The DW3000 user manual, section 7.1, specifies what the values of the
/// constant should be for each register.
pub trait Register {
    /// The register index
    const ID: u8;

    /// The registers's sub-index
    const SUB_ID: u8;

    /// The lenght of the register
    const LEN: usize;
}

/// The value of field bits `first ..= last` of a register buffer `s`
pub open spec fn reg_field(s: Seq<u8>, first: int, last: int) -> nat {
    bits_val(s, 8 * HEADER_LEN + first, (last - first + 1) as nat)
}

/// `t` is `s` after field bits `first ..= last` were given the low binary
/// digits of `v`, all other bits (the header's too) unchanged
pub open spec fn reg_field_written(s: Seq<u8>, t: Seq<u8>, first: int, last: int, v: nat) -> bool {
    bits_written(s, t, 8 * HEADER_LEN + first, (last - first + 1) as nat, v)
}

/// The buffer of a register whose header and contents are all zero
pub open spec fn zero_buffer(len: nat) -> Seq<u8> {
    Seq::new((HEADER_LEN + len) as nat, |i: int| 0u8)
}

fn zeroed_bytes(len: usize) -> (v: Vec<u8>)
    ensures
        v@ == zero_buffer(len as nat),
{
    let mut v: Vec<u8> = Vec::new();
    let mut i: usize = 0;
    while i < HEADER_LEN
        invariant
            i <= HEADER_LEN,
            v@ == Seq::new(i as nat, |k: int| 0u8),
        decreases HEADER_LEN - i,
    {
        v.push(0);
        i = i + 1;
    }
    let mut j: usize = 0;
    while j < len
        invariant
            j <= len,
            v@ == Seq::new((HEADER_LEN + j) as nat, |k: int| 0u8),
        decreases len - j,
    {
        v.push(0);
        j = j + 1;
    }
    v
}

proof fn lemma_truncated_field(s: Seq<u8>, lo: int, n: nat, w: nat)
    requires
        w == 8 || w == 16 || w == 32 || w == 64 || w == 128,
    ensures
        (if n < w { bits_val(s, lo, n) } else { bits_val(s, lo, w) }) == bits_val(s, lo, n) % pow2(w),
        bits_val(s, lo, n) % pow2(w) < pow2(w),
{
    lemma_bits_val_bound(s, lo, n);
    if n < w {
        lemma_pow2_strictly_increases(n, w);
        vstd::arithmetic::div_mod::lemma_small_mod(bits_val(s, lo, n), pow2(w));
    } else {
        lemma_bits_val_truncate(s, lo, n, w);
    }
    vstd::arithmetic::power2::lemma_pow2_pos(w);
}

proof fn lemma_width_values()
    ensures
        pow2(8) == 0x100,
        pow2(16) == 0x1_0000,
        pow2(32) == 0x1_0000_0000,
        pow2(64) == 0x1_0000_0000_0000_0000,
        pow2(128) == 0x1_0000_0000_0000_0000_0000_0000_0000_0000nat,
{
    lemma2_to64();
    vstd::arithmetic::power2::lemma_pow2_adds(64, 64);
}

/// Field bits `first ..= last` of `bytes`, reduced to `width` bits
fn read_field(bytes: &Vec<u8>, first: usize, last: usize, width: usize) -> (r: u128)
    requires
        first <= last < MAX_FIELD_BIT,
        8 * HEADER_LEN + last < 8 * bytes@.len(),
        width == 8 || width == 16 || width == 32 || width == 64 || width == 128,
    ensures
        r == reg_field(bytes@, first as int, last as int) % pow2(width as nat),
        r < pow2(width as nat),
        last - first < width ==> r == reg_field(bytes@, first as int, last as int),
{
    let n: usize = last - first + 1;
    let m: usize = if n < width {
        n
    } else {
        width
    };
    let r = get_bits(bytes.as_slice(), 8 * HEADER_LEN + first, m);
    proof {
        lemma_truncated_field(bytes@, 8 * HEADER_LEN + first, n as nat, width as nat);
        lemma_bits_val_truncate(bytes@, 8 * HEADER_LEN + first, n as nat, n as nat);
    }
    r
}

/// A field read after a write of that field gives the written value,
/// reduced to the field's width (a value too large for the field is
/// silently truncated).
pub proof fn lemma_field_read_after_write(s: Seq<u8>, t: Seq<u8>, first: int, last: int, v: nat)
    requires
        reg_field_written(s, t, first, last, v),
        0 <= first <= last,
        8 * HEADER_LEN + last < 8 * s.len(),
    ensures
        reg_field(t, first, last) == v % pow2((last - first + 1) as nat),
{
    lemma_written_reads_back(s, t, 8 * HEADER_LEN + first, (last - first + 1) as nat, v);
}

/// A field write leaves every other field of the register, and the header
/// of the transaction, as they were.
pub proof fn lemma_field_write_keeps_others(
    s: Seq<u8>,
    t: Seq<u8>,
    first: int,
    last: int,
    v: nat,
    first2: int,
    last2: int,
)
    requires
        reg_field_written(s, t, first, last, v),
        0 <= first <= last,
        0 <= first2 <= last2,
        8 * HEADER_LEN + last2 < 8 * s.len(),
        last2 < first || last < first2,
    ensures
        reg_field(t, first2, last2) == reg_field(s, first2, last2),
        t[0] == s[0],
        t[1] == s[1],
        t.len() == s.len(),
{
    lemma_written_frame(
        s,
        t,
        8 * HEADER_LEN + first,
        (last - first + 1) as nat,
        v,
        8 * HEADER_LEN + first2,
        (last2 - first2 + 1) as nat,
    );
    lemma_written_keeps_byte(s, t, 8 * HEADER_LEN + first, (last - first + 1) as nat, v, 0);
    lemma_written_keeps_byte(s, t, 8 * HEADER_LEN + first, (last - first + 1) as nat, v, 1);
}

/// Writing a field twice leaves the register as writing it once with the
/// second value does.
pub proof fn lemma_field_write_twice(
    s: Seq<u8>,
    t1: Seq<u8>,
    t2: Seq<u8>,
    t3: Seq<u8>,
    first: int,
    last: int,
    v1: nat,
    v2: nat,
)
    requires
        reg_field_written(s, t1, first, last, v1),
        reg_field_written(t1, t2, first, last, v2),
        reg_field_written(s, t3, first, last, v2),
    ensures
        t2 == t3,
{
    lemma_written_twice(s, t1, t2, t3, 8 * HEADER_LEN + first, (last - first + 1) as nat, v1, v2);
}

/// Writes of two disjoint fields give the same register in either order.
pub proof fn lemma_field_writes_commute(
    s: Seq<u8>,
    a: Seq<u8>,
    b: Seq<u8>,
    c: Seq<u8>,
    d: Seq<u8>,
    first1: int,
    last1: int,
    v1: nat,
    first2: int,
    last2: int,
    v2: nat,
)
    requires
        first1 <= last1,
        first2 <= last2,
        last1 < first2 || last2 < first1,
        reg_field_written(s, a, first1, last1, v1),
        reg_field_written(a, b, first2, last2, v2),
        reg_field_written(s, c, first2, last2, v2),
        reg_field_written(c, d, first1, last1, v1),
    ensures
        b == d,
{
    lemma_written_commute(
        s,
        a,
        b,
        c,
        d,
        8 * HEADER_LEN + first1,
        (last1 - first1 + 1) as nat,
        v1,
        8 * HEADER_LEN + first2,
        (last2 - first2 + 1) as nat,
        v2,
    );
}

/// A register value `t` as read back after `s` was written: the chip keeps
/// the contents, while the header bytes of the two transfers differ
pub open spec fn same_contents(s: Seq<u8>, t: Seq<u8>) -> bool {
    &&& s.len() == t.len()
    &&& s.subrange(HEADER_LEN as int, s.len() as int) == t.subrange(HEADER_LEN as int, t.len() as int)
}

/// A field depends on the register's contents alone, not on the header:
/// the value read back with the contents that were written has the fields
/// that were written.
pub proof fn lemma_field_of_contents(s: Seq<u8>, t: Seq<u8>, first: int, last: int)
    requires
        same_contents(s, t),
        0 <= first <= last,
        8 * HEADER_LEN + last < 8 * s.len(),
    ensures
        reg_field(s, first, last) == reg_field(t, first, last),
{
    let lo = 8 * HEADER_LEN + first;
    let n = (last - first + 1) as nat;
    assert forall|k: nat| k < n implies #[trigger] bit_of(s, lo + k) == bit_of(t, lo + k) by {
        let i = (lo + k) / 8;
        assert(HEADER_LEN <= i < s.len());
        assert(s[i] == s.subrange(HEADER_LEN as int, s.len() as int)[i - HEADER_LEN]);
        assert(t[i] == t.subrange(HEADER_LEN as int, t.len() as int)[i - HEADER_LEN]);
    }
    lemma_bits_val_frame(s, t, lo, n);
}

/// A field write: first bit, last bit, value
pub type FieldWrite = (int, int, nat);

/// Bit `i` of register buffer `s` after the field writes `ws`, made in order
pub open spec fn bit_after_writes(s: Seq<u8>, ws: Seq<FieldWrite>, i: int) -> bool
    decreases ws.len(),
{
    if ws.len() == 0 {
        bit_of(s, i)
    } else {
        let w = ws.last();
        if 8 * HEADER_LEN + w.0 <= i <= 8 * HEADER_LEN + w.1 {
            nat_bit(w.2, (i - 8 * HEADER_LEN - w.0) as nat)
        } else {
            bit_after_writes(s, ws.drop_last(), i)
        }
    }
}

/// `t` is register buffer `s` after the field writes `ws`, made in order:
/// each bit holds what the last write that covers it gave it, or its value
/// in `s` where no write covers it
pub open spec fn fields_written(s: Seq<u8>, t: Seq<u8>, ws: Seq<FieldWrite>) -> bool {
    &&& t.len() == s.len()
    &&& forall|i: int| 0 <= i < 8 * s.len() ==> #[trigger] bit_of(t, i) == bit_after_writes(s, ws, i)
}

/// The fields `a` and `b` share no bit
pub open spec fn disjoint_fields(a: FieldWrite, b: FieldWrite) -> bool {
    a.1 < b.0 || b.1 < a.0
}

/// No writes leave a register as it was.
pub proof fn lemma_fields_written_none(s: Seq<u8>)
    ensures
        fields_written(s, s, Seq::empty()),
{
}

/// One more field write extends a sequence of writes.
pub proof fn lemma_fields_written_step(
    s: Seq<u8>,
    t1: Seq<u8>,
    t2: Seq<u8>,
    ws: Seq<FieldWrite>,
    first: int,
    last: int,
    v: nat,
)
    requires
        fields_written(s, t1, ws),
        reg_field_written(t1, t2, first, last, v),
        first <= last,
    ensures
        fields_written(s, t2, ws.push((first, last, v))),
{
    let ws2 = ws.push((first, last, v));
    assert(ws2.drop_last() =~= ws);
    assert(ws2.last() == (first, last, v));
    assert forall|i: int| 0 <= i < 8 * s.len() implies #[trigger] bit_of(t2, i) == bit_after_writes(s, ws2, i) by {
        assert(bit_of(t1, i) == bit_after_writes(s, ws, i));
        assert(bit_of(t2, i) == if 8 * HEADER_LEN + first <= i < 8 * HEADER_LEN + first + (last - first + 1) as nat {
            nat_bit(v, (i - (8 * HEADER_LEN + first)) as nat)
        } else {
            bit_of(t1, i)
        });
        if first <= last {
            assert(bit_after_writes(s, ws2, i) == if 8 * HEADER_LEN + first <= i <= 8 * HEADER_LEN + last {
                nat_bit(v, (i - 8 * HEADER_LEN - first) as nat)
            } else {
                bit_after_writes(s, ws, i)
            });
        }
    }
}

proof fn lemma_bit_after_writes_in(s: Seq<u8>, ws: Seq<FieldWrite>, k: int, i: int)
    requires
        0 <= k < ws.len(),
        8 * HEADER_LEN + ws[k].0 <= i <= 8 * HEADER_LEN + ws[k].1,
        forall|j: int| k < j < ws.len() ==> #[trigger] disjoint_fields(ws[j], ws[k]),
    ensures
        bit_after_writes(s, ws, i) == nat_bit(ws[k].2, (i - 8 * HEADER_LEN - ws[k].0) as nat),
    decreases ws.len(),
{
    if k < ws.len() - 1 {
        assert(disjoint_fields(ws[ws.len() - 1], ws[k]));
        let ws2 = ws.drop_last();
        assert forall|j: int| k < j < ws2.len() implies #[trigger] disjoint_fields(ws2[j], ws2[k]) by {
            assert(disjoint_fields(ws[j], ws[k]));
        }
        lemma_bit_after_writes_in(s, ws2, k, i);
    }
}

proof fn lemma_bit_after_writes_out(s: Seq<u8>, ws: Seq<FieldWrite>, i: int)
    requires
        forall|j: int|
            0 <= j < ws.len() ==> !(8 * HEADER_LEN + #[trigger] ws[j].0 <= i <= 8 * HEADER_LEN + ws[j].1),
    ensures
        bit_after_writes(s, ws, i) == bit_of(s, i),
    decreases ws.len(),
{
    if ws.len() > 0 {
        let ws2 = ws.drop_last();
        assert(!(8 * HEADER_LEN + ws[ws.len() - 1].0 <= i <= 8 * HEADER_LEN + ws[ws.len() - 1].1));
        assert forall|j: int| 0 <= j < ws2.len() implies !(8 * HEADER_LEN + #[trigger] ws2[j].0 <= i <= 8
            * HEADER_LEN + ws2[j].1) by {
            assert(ws2[j] == ws[j]);
        }
        lemma_bit_after_writes_out(s, ws2, i);
    }
}

/// After a sequence of field writes, a field that no later write touches
/// reads back what was written to it, reduced to its width.
pub proof fn lemma_fields_written_read(s: Seq<u8>, t: Seq<u8>, ws: Seq<FieldWrite>, k: int)
    requires
        fields_written(s, t, ws),
        0 <= k < ws.len(),
        0 <= ws[k].0 <= ws[k].1,
        8 * HEADER_LEN + ws[k].1 < 8 * s.len(),
        forall|j: int| k < j < ws.len() ==> #[trigger] disjoint_fields(ws[j], ws[k]),
    ensures
        reg_field(t, ws[k].0, ws[k].1) == ws[k].2 % pow2((ws[k].1 - ws[k].0 + 1) as nat),
{
    let lo = 8 * HEADER_LEN + ws[k].0;
    let n = (ws[k].1 - ws[k].0 + 1) as nat;
    assert forall|b: nat| b < n implies #[trigger] bit_of(t, lo + b) == nat_bit(ws[k].2, b) by {
        lemma_bit_after_writes_in(s, ws, k, lo + b);
        assert(lo + b - 8 * HEADER_LEN - ws[k].0 == b);
    }
    lemma_bits_val_of_digits(t, lo, n, ws[k].2);
}

/// After a sequence of field writes, a field that none of them touches
/// keeps its value.
pub proof fn lemma_fields_written_untouched(s: Seq<u8>, t: Seq<u8>, ws: Seq<FieldWrite>, first: int, last: int)
    requires
        fields_written(s, t, ws),
        0 <= first <= last,
        8 * HEADER_LEN + last < 8 * s.len(),
        forall|j: int| 0 <= j < ws.len() ==> #[trigger] disjoint_fields(ws[j], (first, last, 0nat)),
    ensures
        reg_field(t, first, last) == reg_field(s, first, last),
{
    let lo = 8 * HEADER_LEN + first;
    let n = (last - first + 1) as nat;
    assert forall|b: nat| b < n implies #[trigger] bit_of(t, lo + b) == bit_of(s, lo + b) by {
        assert forall|j: int| 0 <= j < ws.len() implies !(8 * HEADER_LEN + #[trigger] ws[j].0 <= lo + b
            <= 8 * HEADER_LEN + ws[j].1) by {
            assert(disjoint_fields(ws[j], (first, last, 0nat)));
        }
        lemma_bit_after_writes_out(s, ws, lo + b);
    }
    lemma_bits_val_frame(t, s, lo, n);
}

/// The lower-case ASCII hexadecimal digit of `n` (below 16)
pub open spec fn hex_digit(n: u8) -> u8 {
    if n < 10 {
        (48 + n) as u8
    } else {
        (87 + n) as u8
    }
}

/// `0x`, then two hexadecimal digits per byte of `data`, most significant
/// digit first, the last byte first
pub open spec fn hex_text(data: Seq<u8>) -> Seq<u8> {
    seq![48u8, 120u8] + Seq::new(
        2 * data.len(),
        |i: int|
            {
                let b = data[data.len() - 1 - i / 2];
                if i % 2 == 0 {
                    hex_digit(b / 16)
                } else {
                    hex_digit(b % 16)
                }
            },
    )
}

fn hex_digit_of(n: u8) -> (c: u8)
    requires
        n < 16,
    ensures
        c == hex_digit(n),
{
    if n < 10 {
        48 + n
    } else {
        87 + n
    }
}

/// A register value read from the chip, header included
pub struct R<REG: Register> {
    pub(crate) bytes: Vec<u8>,
    pub(crate) reg: core::marker::PhantomData<REG>,
}

/// A register value to be written to the chip, header included
pub struct W<REG: Register> {
    pub(crate) bytes: Vec<u8>,
    pub(crate) reg: core::marker::PhantomData<REG>,
}

impl<REG: Register> View for R<REG> {
    type V = Seq<u8>;

    closed spec fn view(&self) -> Seq<u8> {
        self.bytes@
    }
}

impl<REG: Register> View for W<REG> {
    type V = Seq<u8>;

    closed spec fn view(&self) -> Seq<u8> {
        self.bytes@
    }
}

impl<REG: Register> R<REG> {
    /// The buffer holds the header and the register's contents
    pub open spec fn wf(self) -> bool {
        self@.len() == HEADER_LEN + REG::LEN
    }

    /// The value of field bits `first ..= last`
    pub open spec fn field(self, first: int, last: int) -> nat {
        reg_field(self@, first, last)
    }

    /// The register value that the given bytes, header included, hold;
    /// `None` where they are not as many as the header and the register
    pub fn from_bytes(bytes: Vec<u8>) -> (r: Option<Self>)
        ensures
            r is Some <==> bytes@.len() == HEADER_LEN + REG::LEN,
            r matches Some(v) ==> v@ == bytes@,
    {
        if bytes.len() >= HEADER_LEN && bytes.len() - HEADER_LEN == REG::LEN {
            Some(R { bytes, reg: core::marker::PhantomData })
        } else {
            None
        }
    }

    /// The whole buffer, header included
    pub fn as_bytes(&self) -> (b: &[u8])
        ensures
            b@ == self@,
    {
        self.bytes.as_slice()
    }

    /// Provides read access to the register's contents
    pub fn data(&self) -> (d: &[u8])
        requires
            self.wf(),
        ensures
            d@ == self@.subrange(HEADER_LEN as int, HEADER_LEN + REG::LEN),
    {
        vstd::slice::slice_subrange(self.bytes.as_slice(), HEADER_LEN, self.bytes.len())
    }

    /// The register's contents as `Debug` shows them: `0x`, then two
    /// lower-case hexadecimal digits per byte, the last byte first
    pub fn to_hex(&self) -> (s: Vec<u8>)
        requires
            self.wf(),
        ensures
            s@ == hex_text(self@.subrange(HEADER_LEN as int, HEADER_LEN + REG::LEN)),
    {
        let ghost d = self@.subrange(HEADER_LEN as int, HEADER_LEN + REG::LEN);
        let mut s: Vec<u8> = Vec::new();
        s.push(48);
        s.push(120);
        let mut k: usize = 0;
        while k < REG::LEN
            invariant
                self.wf(),
                d == self@.subrange(HEADER_LEN as int, HEADER_LEN + REG::LEN),
                k <= REG::LEN,
                s@.len() == 2 + 2 * k,
                forall|j: int| 0 <= j < 2 + 2 * k ==> #[trigger] s@[j] == hex_text(d)[j],
            decreases REG::LEN - k,
        {
            let b: u8 = self.bytes[self.bytes.len() - 1 - k];
            assert(b == d[d.len() - 1 - k]);
            s.push(hex_digit_of(b / 16));
            s.push(hex_digit_of(b % 16));
            proof {
                assert((2 * k as int) / 2 == k && (2 * k as int) % 2 == 0);
                assert((2 * k as int + 1) / 2 == k && (2 * k as int + 1) % 2 == 1);
                assert(s@[2 + 2 * k as int] == hex_text(d)[2 + 2 * k as int]);
                assert(s@[3 + 2 * k as int] == hex_text(d)[3 + 2 * k as int]);
            }
            k = k + 1;
        }
        proof {
            assert(s@ =~= hex_text(d));
        }
        s
    }

    /// Field bits `first ..= last` as a `u8`, higher bits dropped
    pub fn get_u8(&self, first: usize, last: usize) -> (r: u8)
        requires
            self.wf(),
            first <= last < 8 * REG::LEN,
            last < MAX_FIELD_BIT,
        ensures
            r == self.field(first as int, last as int) % 0x100,
            last - first < 8 ==> r == self.field(first as int, last as int),
    {
        proof { lemma_width_values(); }
        read_field(&self.bytes, first, last, 8) as u8
    }

    /// Field bits `first ..= last` as a `u16`, higher bits dropped
    pub fn get_u16(&self, first: usize, last: usize) -> (r: u16)
        requires
            self.wf(),
            first <= last < 8 * REG::LEN,
            last < MAX_FIELD_BIT,
        ensures
            r == self.field(first as int, last as int) % 0x1_0000,
            last - first < 16 ==> r == self.field(first as int, last as int),
    {
        proof { lemma_width_values(); }
        read_field(&self.bytes, first, last, 16) as u16
    }

    /// Field bits `first ..= last` as a `u32`, higher bits dropped
    pub fn get_u32(&self, first: usize, last: usize) -> (r: u32)
        requires
            self.wf(),
            first <= last < 8 * REG::LEN,
            last < MAX_FIELD_BIT,
        ensures
            r == self.field(first as int, last as int) % 0x1_0000_0000,
            last - first < 32 ==> r == self.field(first as int, last as int),
    {
        proof { lemma_width_values(); }
        read_field(&self.bytes, first, last, 32) as u32
    }

    /// Field bits `first ..= last` as a `u64`, higher bits dropped
    pub fn get_u64(&self, first: usize, last: usize) -> (r: u64)
        requires
            self.wf(),
            first <= last < 8 * REG::LEN,
            last < MAX_FIELD_BIT,
        ensures
            r == self.field(first as int, last as int) % 0x1_0000_0000_0000_0000nat,
            last - first < 64 ==> r == self.field(first as int, last as int),
    {
        proof { lemma_width_values(); }
        read_field(&self.bytes, first, last, 64) as u64
    }

    /// Field bits `first ..= last` as a `u128`, higher bits dropped
    pub fn get_u128(&self, first: usize, last: usize) -> (r: u128)
        requires
            self.wf(),
            first <= last < 8 * REG::LEN,
            last < MAX_FIELD_BIT,
        ensures
            r == self.field(first as int, last as int) % 0x1_0000_0000_0000_0000_0000_0000_0000_0000nat,
            last - first < 128 ==> r == self.field(first as int, last as int),
    {
        proof { lemma_width_values(); }
        read_field(&self.bytes, first, last, 128)
    }
}

impl<REG: Register> W<REG> {
    /// The buffer holds the header and the register's contents
    pub open spec fn wf(self) -> bool {
        self@.len() == HEADER_LEN + REG::LEN
    }

    /// The value of field bits `first ..= last`
    pub open spec fn field(self, first: int, last: int) -> nat {
        reg_field(self@, first, last)
    }

    /// A register value to write that starts from what was read, as a
    /// modification of the register does
    pub fn from_read(r: &R<REG>) -> (w: Self)
        ensures
            w@ == r@,
    {
        W { bytes: r.bytes.clone(), reg: core::marker::PhantomData }
    }

    /// The whole buffer, header included
    pub fn as_bytes(&self) -> (b: &[u8])
        ensures
            b@ == self@,
    {
        self.bytes.as_slice()
    }

    /// Provides write access to the register's contents
    pub fn data(&mut self) -> (d: &mut [u8])
        requires
            old(self).wf(),
        ensures
            d@ == old(self)@.subrange(HEADER_LEN as int, old(self)@.len() as int),
            final(self)@ == old(self)@.subrange(0, HEADER_LEN as int) + final(d)@,
    {
        let (_header, d) = self.bytes.as_mut_slice().split_at_mut(HEADER_LEN);
        d
    }

    /// The field writes `fields`, each a first bit, a last bit and a value
    pub open spec fn as_field_writes(fields: Seq<(usize, usize, u128)>) -> Seq<FieldWrite> {
        Seq::new(fields.len(), |k: int| (fields[k].0 as int, fields[k].1 as int, fields[k].2 as nat))
    }

    /// Writes the given fields in order, each a first bit, a last bit and a
    /// value whose low binary digits the field receives
    pub fn write_fields(&mut self, fields: &[(usize, usize, u128)])
        requires
            old(self).wf(),
            forall|k: int|
                0 <= k < fields@.len() ==> {
                    let f = #[trigger] fields@[k];
                    f.0 <= f.1 < 8 * REG::LEN && f.1 < MAX_FIELD_BIT && f.1 - f.0 < 128
                },
        ensures
            final(self).wf(),
            fields_written(old(self)@, final(self)@, Self::as_field_writes(fields@)),
    {
        let ghost s0 = self@;
        proof {
            lemma_fields_written_none(s0);
            assert(Self::as_field_writes(fields@.take(0)) =~= Seq::<FieldWrite>::empty());
        }
        let mut k: usize = 0;
        while k < fields.len()
            invariant
                k <= fields@.len(),
                self.wf(),
                s0.len() == HEADER_LEN + REG::LEN,
                forall|j: int|
                    0 <= j < fields@.len() ==> {
                        let f = #[trigger] fields@[j];
                        f.0 <= f.1 < 8 * REG::LEN && f.1 < MAX_FIELD_BIT && f.1 - f.0 < 128
                    },
                fields_written(s0, self@, Self::as_field_writes(fields@.take(k as int))),
            decreases fields@.len() - k,
        {
            let (first, last, value) = fields[k];
            let ghost before = self@;
            self.write_field(first, last, value);
            proof {
                lemma_fields_written_step(s0, before, self@, Self::as_field_writes(fields@.take(k as int)), first as int, last as int, value as nat);
                assert(Self::as_field_writes(fields@.take(k + 1)) =~= Self::as_field_writes(fields@.take(k as int)).push((first as int, last as int, value as nat)));
            }
            k = k + 1;
        }
        proof {
            assert(fields@.take(fields@.len() as int) =~= fields@);
        }
    }

    fn write_field(&mut self, first: usize, last: usize, value: u128)
        requires
            old(self).wf(),
            first <= last < 8 * REG::LEN,
            last < MAX_FIELD_BIT,
            last - first < 128,
        ensures
            final(self).wf(),
            reg_field_written(old(self)@, final(self)@, first as int, last as int, value as nat),
    {
        set_bits(&mut self.bytes, 8 * HEADER_LEN + first, last - first + 1, value);
    }

    /// Gives field bits `first ..= last` the low binary digits of `value`
    pub fn set_u8(&mut self, first: usize, last: usize, value: u8) -> (r: &mut Self)
        requires
            old(self).wf(),
            first <= last < 8 * REG::LEN,
            last < MAX_FIELD_BIT,
            last - first < 8,
        ensures
            (*r).wf(),
            reg_field_written(old(self)@, (*r)@, first as int, last as int, value as nat),
            *final(self) == *final(r),
    {
        self.write_field(first, last, value as u128);
        self
    }

    /// Gives field bits `first ..= last` the low binary digits of `value`
    pub fn set_u16(&mut self, first: usize, last: usize, value: u16) -> (r: &mut Self)
        requires
            old(self).wf(),
            first <= last < 8 * REG::LEN,
            last < MAX_FIELD_BIT,
            last - first < 16,
        ensures
            (*r).wf(),
            reg_field_written(old(self)@, (*r)@, first as int, last as int, value as nat),
            *final(self) == *final(r),
    {
        self.write_field(first, last, value as u128);
        self
    }

    /// Gives field bits `first ..= last` the low binary digits of `value`
    pub fn set_u32(&mut self, first: usize, last: usize, value: u32) -> (r: &mut Self)
        requires
            old(self).wf(),
            first <= last < 8 * REG::LEN,
            last < MAX_FIELD_BIT,
            last - first < 32,
        ensures
            (*r).wf(),
            reg_field_written(old(self)@, (*r)@, first as int, last as int, value as nat),
            *final(self) == *final(r),
    {
        self.write_field(first, last, value as u128);
        self
    }

    /// Gives field bits `first ..= last` the low binary digits of `value`
    pub fn set_u64(&mut self, first: usize, last: usize, value: u64) -> (r: &mut Self)
        requires
            old(self).wf(),
            first <= last < 8 * REG::LEN,
            last < MAX_FIELD_BIT,
            last - first < 64,
        ensures
            (*r).wf(),
            reg_field_written(old(self)@, (*r)@, first as int, last as int, value as nat),
            *final(self) == *final(r),
    {
        self.write_field(first, last, value as u128);
        self
    }

    /// Gives field bits `first ..= last` the low binary digits of `value`
    pub fn set_u128(&mut self, first: usize, last: usize, value: u128) -> (r: &mut Self)
        requires
            old(self).wf(),
            first <= last < 8 * REG::LEN,
            last < MAX_FIELD_BIT,
            last - first < 128,
        ensures
            (*r).wf(),
            reg_field_written(old(self)@, (*r)@, first as int, last as int, value as nat),
            *final(self) == *final(r),
    {
        self.write_field(first, last, value as u128);
        self
    }
}

/// Marker trait for registers that can be read from
pub trait Readable: Register + Sized {
    /// Return the read type for this register
    fn read() -> (r: R<Self>)
        ensures
            r@ == zero_buffer(Self::LEN as nat),
    {
        R { bytes: zeroed_bytes(Self::LEN), reg: core::marker::PhantomData }
    }

    /// Return the read type's internal buffer
    fn buffer(r: &mut R<Self>) -> (b: &mut [u8])
        ensures
            b@ == old(r)@,
            final(r)@ == final(b)@,
    {
        r.bytes.as_mut_slice()
    }
}

/// Marker trait for registers that can be written to
pub trait Writable: Register + Sized {
    /// Return the write type for this register
    fn write() -> (w: W<Self>)
        ensures
            w@ == zero_buffer(Self::LEN as nat),
    {
        W { bytes: zeroed_bytes(Self::LEN), reg: core::marker::PhantomData }
    }

    /// Return the write type's internal buffer
    fn buffer(w: &mut W<Self>) -> (b: &mut [u8])
        ensures
            b@ == old(w)@,
            final(w)@ == final(b)@,
    {
        w.bytes.as_mut_slice()
    }
}

/// First header byte of an access to register `id`/`sub_id`: the
/// read/write flag, the two-octet addressing flag, the 5-bit base address
/// and the top bit of the 7-bit sub-address
pub open spec fn header_byte_0(write: bool, id: u8, sub_id: u8) -> u8 {
    ((((if write { 1u8 } else { 0u8 }) << 7u8) & 0x80u8) | ((1u8 << 6u8) & 0x40u8) | ((id << 1u8)
        & 0x3eu8) | ((sub_id >> 6u8) & 0x01u8)) as u8
}

/// Second header byte: the low six bits of the sub-address, mode bits zero
pub open spec fn header_byte_1(sub_id: u8) -> u8 {
    (sub_id << 2u8) as u8
}

/// Initializes the SPI message header
///
/// Initializes the SPI message header for accessing a given register, writing
/// the header directly into the provided buffer. Returns the length of the
/// header that was written. The full (two-octet) address is always used.
pub fn init_header<REG: Register>(write: bool, buffer: &mut [u8]) -> (n: usize)
    requires
        old(buffer)@.len() >= HEADER_LEN,
    ensures
        n == HEADER_LEN,
        final(buffer)@ == old(buffer)@.update(0, header_byte_0(write, REG::ID, REG::SUB_ID)).update(
            1,
            header_byte_1(REG::SUB_ID),
        ),
{
    let w: u8 = if write {
        1
    } else {
        0
    };
    let b0: u8 = ((w << 7u8) & 0x80u8) | ((1u8 << 6u8) & 0x40u8) | ((REG::ID << 1u8) & 0x3eu8) | ((
    REG::SUB_ID >> 6u8) & 0x01u8);
    let b1: u8 = REG::SUB_ID << 2u8;
    buffer[0] = b0;
    buffer[1] = b1;
    2
}

/// The header of a register access names the access and the register: its
/// top bit is the write flag, the next is the two-octet addressing flag,
/// then come the 5-bit base address and the 7-bit sub-address.
pub proof fn lemma_header_decodes(write: bool, id: u8, sub_id: u8)
    requires
        id < 32,
        sub_id < 128,
    ensures
        (header_byte_0(write, id, sub_id) >> 7u8 == 1u8) == write,
        (header_byte_0(write, id, sub_id) >> 6u8) & 1u8 == 1u8,
        (header_byte_0(write, id, sub_id) >> 1u8) & 0x1fu8 == id,
        (((header_byte_0(write, id, sub_id) & 1u8) << 6u8) | (header_byte_1(sub_id) >> 2u8)) == sub_id,
        header_byte_1(sub_id) & 3u8 == 0,
{
    let w: u8 = if write { 1u8 } else { 0u8 };
    assert(w <= 1);
    let b0 = header_byte_0(write, id, sub_id);
    let b1 = header_byte_1(sub_id);
    assert(b0 == ((((w << 7u8) & 0x80u8) | ((1u8 << 6u8) & 0x40u8) | ((id << 1u8) & 0x3eu8) | ((sub_id >> 6u8) & 0x01u8)) as u8));
    assert(((((w << 7u8) & 0x80u8) | ((1u8 << 6u8) & 0x40u8) | ((id << 1u8) & 0x3eu8) | ((sub_id >> 6u8) & 0x01u8)) >> 7u8 == 1u8) == (w == 1u8)) by (bit_vector)
        requires w <= 1u8;
    assert((((((w << 7u8) & 0x80u8) | ((1u8 << 6u8) & 0x40u8) | ((id << 1u8) & 0x3eu8) | ((sub_id >> 6u8) & 0x01u8)) >> 6u8) & 1u8 == 1u8)) by (bit_vector);
    assert((((((w << 7u8) & 0x80u8) | ((1u8 << 6u8) & 0x40u8) | ((id << 1u8) & 0x3eu8) | ((sub_id >> 6u8) & 0x01u8)) >> 1u8) & 0x1fu8 == id)) by (bit_vector)
        requires id < 32u8;
    assert(((((((w << 7u8) & 0x80u8) | ((1u8 << 6u8) & 0x40u8) | ((id << 1u8) & 0x3eu8) | ((sub_id >> 6u8) & 0x01u8)) & 1u8) << 6u8) | ((sub_id << 2u8) >> 2u8)) == sub_id) by (bit_vector)
        requires sub_id < 128u8;
    assert((sub_id << 2u8) & 3u8 == 0u8) by (bit_vector);
}

/// The byte that issues fast command `fast`
pub open spec fn fast_command_spec(fast: u8) -> u8 {
    ((0x1u8 << 7u8) | ((fast << 1u8) & 0x3eu8) | 0x1u8) as u8
}

/// The single byte that issues a fast command: the write flag, the short
/// addressing mode, the 5-bit command and the fast command marker bit
pub fn fast_command_byte(fast: u8) -> (b: u8)
    ensures
        b == fast_command_spec(fast),
{
    (0x1u8 << 7u8) | ((fast << 1u8) & 0x3eu8) | 0x1u8
}

/// A fast command byte carries the command's low five bits, with the write
/// flag and the marker bit set and the addressing-mode bit clear.
pub proof fn lemma_fast_command_decodes(fast: u8)
    ensures
        (fast_command_spec(fast) >> 1u8) & 0x1fu8 == fast & 0x1fu8,
        fast_command_spec(fast) & 0xc1u8 == 0x81u8,
{
    assert((((0x1u8 << 7u8) | ((fast << 1u8) & 0x3eu8) | 0x1u8) >> 1u8) & 0x1fu8 == fast & 0x1fu8) by (bit_vector);
    assert(((0x1u8 << 7u8) | ((fast << 1u8) & 0x3eu8) | 0x1u8) & 0xc1u8 == 0x81u8) by (bit_vector);
}

/// Entry point to the DW3000 driver's low-level API
pub struct DW3000<SPI, CS> {
    spi: SPI,
    chip_select: CS,
}

/// Provides access to a register
///
/// You can get an instance for a given register using one of the methods on
/// [`DW3000`].
pub struct RegAccessor<'s, REG, SPI, CS>(pub &'s mut DW3000<SPI, CS>, pub core::marker::PhantomData<REG>);

impl<SPI, CS> DW3000<SPI, CS> {
    /// The SPI peripheral that the driver holds
    pub closed spec fn spec_bus(&self) -> SPI {
        self.spi
    }

    /// The chip select pin that the driver holds
    pub closed spec fn spec_chip_select(&self) -> CS {
        self.chip_select
    }

    /// Create a new instance of `DW3000`
    ///
    /// Requires the SPI peripheral and the chip select pin that are connected
    /// to the DW3000.
    pub fn new(spi: SPI, chip_select: CS) -> (r: Self)
        ensures
            r.spec_bus() == spi,
            r.spec_chip_select() == chip_select,
    {
        DW3000 { spi, chip_select }
    }

    /// Allow access to the SPI bus
    pub fn bus(&mut self) -> (r: &mut SPI)
        ensures
            *r == old(self).spec_bus(),
            final(self).spec_bus() == *final(r),
            final(self).spec_chip_select() == old(self).spec_chip_select(),
    {
        &mut self.spi
    }

    /// Allow access to the chip select pin
    pub fn chip_select(&mut self) -> (r: &mut CS)
        ensures
            *r == old(self).spec_chip_select(),
            final(self).spec_chip_select() == *final(r),
            final(self).spec_bus() == old(self).spec_bus(),
    {
        &mut self.chip_select
    }
}

} // verus!
