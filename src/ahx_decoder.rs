use vstd::prelude::*;

use crate::adx_header::AdxHeader;
use crate::ahx::{
    alloc_bits, alloc_bits_exec, expand_sf, payload_len, AHX_SAMPLE_RATE, END_SENTINEL,
    FRAME_SAMPLES, FRAME_SYNC, SUBBANDS,
};
use crate::ahx_tables::{
    cosine_matrix, cosine_table, scalefactors, sf_table, synthesis_window, synthesis_window_table,
};
use crate::bitio::{bits_value, pow2, pow2_exec, lemma_pow2_mono, BitReader};
use crate::error::{RadxError, RadxResult};
use crate::fixed::{asr13, asr28, clamp16, clamp_i16};
use crate::{LoopInfo, Sample};

verus! {

/// One row of a dequantization table.
#[derive(Clone, Copy, Debug, PartialEq, Eq, Structural)]
pub struct QuantizeSpec {
    pub nlevels: i64,
    /// Bits per code when three codes are sent as one group; 0 where they are sent apart.
    pub group: u32,
    /// Bits of the group, or of each code.
    pub bits: u32,
    pub c: i64,
    pub d: i64,
}

/// What every row of the dequantization tables satisfies.
pub open spec fn quant_ok(q: QuantizeSpec) -> bool {
    &&& 3 <= q.nlevels <= 0xffff
    &&& 2 <= q.bits <= 16
    &&& (q.group == 0 || (2 <= q.group <= 4 && q.nlevels <= pow2(q.group as nat)))
    &&& 0 <= q.c < 0x2000_0000
    &&& 0 <= q.d <= 0x0800_0000
}

/// Row `a` (from 1) of the dequantization table of subbands 0 to 3.
pub open spec fn quant_low_row(a: int) -> QuantizeSpec {
    if a == 1 {
        QuantizeSpec { nlevels: 3, group: 2, bits: 5, c: 0x15555555, d: 0x8000000 }
    } else if a == 2 {
        QuantizeSpec { nlevels: 5, group: 4, bits: 7, c: 0x1999999a, d: 0x8000000 }
    } else if a == 3 {
        QuantizeSpec { nlevels: 7, group: 0, bits: 3, c: 0x12492492, d: 0x4000000 }
    } else if a == 4 {
        QuantizeSpec { nlevels: 9, group: 4, bits: 10, c: 0x1c71c71c, d: 0x8000000 }
    } else if a == 5 {
        QuantizeSpec { nlevels: 15, group: 0, bits: 4, c: 0x11111111, d: 0x2000000 }
    } else if a == 6 {
        QuantizeSpec { nlevels: 31, group: 0, bits: 5, c: 0x10842108, d: 0x1000000 }
    } else if a == 7 {
        QuantizeSpec { nlevels: 63, group: 0, bits: 6, c: 0x10410410, d: 0x800000 }
    } else if a == 8 {
        QuantizeSpec { nlevels: 127, group: 0, bits: 7, c: 0x10204081, d: 0x400000 }
    } else if a == 9 {
        QuantizeSpec { nlevels: 255, group: 0, bits: 8, c: 0x10101010, d: 0x200000 }
    } else if a == 10 {
        QuantizeSpec { nlevels: 511, group: 0, bits: 9, c: 0x10080402, d: 0x100000 }
    } else if a == 11 {
        QuantizeSpec { nlevels: 1023, group: 0, bits: 10, c: 0x10040100, d: 0x80000 }
    } else if a == 12 {
        QuantizeSpec { nlevels: 2047, group: 0, bits: 11, c: 0x10020040, d: 0x40000 }
    } else if a == 13 {
        QuantizeSpec { nlevels: 4095, group: 0, bits: 12, c: 0x10010010, d: 0x20000 }
    } else if a == 14 {
        QuantizeSpec { nlevels: 8191, group: 0, bits: 13, c: 0x10008004, d: 0x10000 }
    } else if a == 15 {
        QuantizeSpec { nlevels: 16383, group: 0, bits: 14, c: 0x10004001, d: 0x8000 }
    } else {
        QuantizeSpec { nlevels: 32767, group: 0, bits: 15, c: 0x10002000, d: 0x4000 }
    }
}

/// Row `a` (from 1) of the dequantization table of subbands 4 to 29.
pub open spec fn quant_high_row(a: int) -> QuantizeSpec {
    if a == 1 {
        QuantizeSpec { nlevels: 3, group: 2, bits: 5, c: 0x15555555, d: 0x8000000 }
    } else if a == 2 {
        QuantizeSpec { nlevels: 5, group: 4, bits: 7, c: 0x1999999a, d: 0x8000000 }
    } else if a == 3 {
        QuantizeSpec { nlevels: 9, group: 4, bits: 10, c: 0x1c71c71c, d: 0x8000000 }
    } else if a == 4 {
        QuantizeSpec { nlevels: 15, group: 0, bits: 4, c: 0x11111111, d: 0x2000000 }
    } else if a == 5 {
        QuantizeSpec { nlevels: 31, group: 0, bits: 5, c: 0x10842108, d: 0x1000000 }
    } else if a == 6 {
        QuantizeSpec { nlevels: 63, group: 0, bits: 6, c: 0x10410410, d: 0x800000 }
    } else if a == 7 {
        QuantizeSpec { nlevels: 127, group: 0, bits: 7, c: 0x10204081, d: 0x400000 }
    } else if a == 8 {
        QuantizeSpec { nlevels: 255, group: 0, bits: 8, c: 0x10101010, d: 0x200000 }
    } else if a == 9 {
        QuantizeSpec { nlevels: 511, group: 0, bits: 9, c: 0x10080402, d: 0x100000 }
    } else if a == 10 {
        QuantizeSpec { nlevels: 1023, group: 0, bits: 10, c: 0x10040100, d: 0x80000 }
    } else if a == 11 {
        QuantizeSpec { nlevels: 2047, group: 0, bits: 11, c: 0x10020040, d: 0x40000 }
    } else if a == 12 {
        QuantizeSpec { nlevels: 4095, group: 0, bits: 12, c: 0x10010010, d: 0x20000 }
    } else if a == 13 {
        QuantizeSpec { nlevels: 8191, group: 0, bits: 13, c: 0x10008004, d: 0x10000 }
    } else if a == 14 {
        QuantizeSpec { nlevels: 16383, group: 0, bits: 14, c: 0x10004001, d: 0x8000 }
    } else if a == 15 {
        QuantizeSpec { nlevels: 32767, group: 0, bits: 15, c: 0x10002000, d: 0x4000 }
    } else {
        QuantizeSpec { nlevels: 65535, group: 0, bits: 16, c: 0x10001000, d: 0x2000 }
    }
}

/// The dequantization row of subband `sb` at allocation `a`.
pub open spec fn quant_of(sb: int, a: int) -> QuantizeSpec {
    if sb < 4 {
        quant_low_row(a)
    } else {
        quant_high_row(a)
    }
}

/// Bits per code of a row.
pub open spec fn code_width(q: QuantizeSpec) -> nat {
    if q.group != 0 {
        q.group as nat
    } else {
        q.bits as nat
    }
}

/// Bits of one granule's three codes under a row.
pub open spec fn codes_len(q: QuantizeSpec) -> int {
    if q.group != 0 {
        q.bits as int
    } else {
        3 * q.bits as int
    }
}

/// The three codes at bit `p` under row `q`: the base-`nlevels` digits of one group, lowest
/// first, or three separate fields.
pub open spec fn unit_codes(s: Seq<u8>, p: int, q: QuantizeSpec) -> Seq<int> {
    if q.group != 0 {
        let g = bits_value(s, p, q.bits as nat) as int;
        let n = q.nlevels as int;
        seq![g % n, g / n % n, g / n / n % n]
    } else {
        seq![
            bits_value(s, p, q.bits as nat) as int,
            bits_value(s, p + q.bits, q.bits as nat) as int,
            bits_value(s, p + 2 * q.bits, q.bits as nat) as int,
        ]
    }
}

fn qs(nlevels: i64, group: u32, bits: u32, c: i64, d: i64) -> (r: QuantizeSpec)
    ensures
        r == (QuantizeSpec { nlevels, group, bits, c, d }),
{
    QuantizeSpec { nlevels, group, bits, c, d }
}

/// The dequantization table of subbands 0 to 3, at allocation `a` (from 1).
fn quant_low(a: u32) -> (r: QuantizeSpec)
    requires
        1 <= a <= 16,
    ensures
        quant_ok(r),
        r == quant_low_row(a as int),
{
    proof {
        reveal_with_fuel(pow2, 5);
    }
    match a {
        1 => qs(3, 2, 5, 0x15555555, 0x08000000),
        2 => qs(5, 4, 7, 0x1999999a, 0x08000000),
        3 => qs(7, 0, 3, 0x12492492, 0x04000000),
        4 => qs(9, 4, 10, 0x1c71c71c, 0x08000000),
        5 => qs(15, 0, 4, 0x11111111, 0x02000000),
        6 => qs(31, 0, 5, 0x10842108, 0x01000000),
        7 => qs(63, 0, 6, 0x10410410, 0x00800000),
        8 => qs(127, 0, 7, 0x10204081, 0x00400000),
        9 => qs(255, 0, 8, 0x10101010, 0x00200000),
        10 => qs(511, 0, 9, 0x10080402, 0x00100000),
        11 => qs(1023, 0, 10, 0x10040100, 0x00080000),
        12 => qs(2047, 0, 11, 0x10020040, 0x00040000),
        13 => qs(4095, 0, 12, 0x10010010, 0x00020000),
        14 => qs(8191, 0, 13, 0x10008004, 0x00010000),
        15 => qs(16383, 0, 14, 0x10004001, 0x00008000),
        _ => qs(32767, 0, 15, 0x10002000, 0x00004000),
    }
}

/// The dequantization table of subbands 4 to 29, at allocation `a` (from 1).
fn quant_high(a: u32) -> (r: QuantizeSpec)
    requires
        1 <= a <= 16,
    ensures
        quant_ok(r),
        r == quant_high_row(a as int),
{
    proof {
        reveal_with_fuel(pow2, 5);
    }
    match a {
        1 => qs(3, 2, 5, 0x15555555, 0x08000000),
        2 => qs(5, 4, 7, 0x1999999a, 0x08000000),
        3 => qs(9, 4, 10, 0x1c71c71c, 0x08000000),
        4 => qs(15, 0, 4, 0x11111111, 0x02000000),
        5 => qs(31, 0, 5, 0x10842108, 0x01000000),
        6 => qs(63, 0, 6, 0x10410410, 0x00800000),
        7 => qs(127, 0, 7, 0x10204081, 0x00400000),
        8 => qs(255, 0, 8, 0x10101010, 0x00200000),
        9 => qs(511, 0, 9, 0x10080402, 0x00100000),
        10 => qs(1023, 0, 10, 0x10040100, 0x00080000),
        11 => qs(2047, 0, 11, 0x10020040, 0x00040000),
        12 => qs(4095, 0, 12, 0x10010010, 0x00020000),
        13 => qs(8191, 0, 13, 0x10008004, 0x00010000),
        14 => qs(16383, 0, 14, 0x10004001, 0x00008000),
        15 => qs(32767, 0, 15, 0x10002000, 0x00004000),
        _ => qs(65535, 0, 16, 0x10001000, 0x00002000),
    }
}

/// A code of `nb` bits, its top bit flipped and read as two's complement: `x - 2^(nb-1)`,
/// moved to 28-bit fixed point, offset by `d`, scaled by `c` (wrapping), and shifted back.
pub open spec fn dequantize(x: int, nb: nat, q: QuantizeSpec) -> int {
    let v = (x - pow2((nb - 1) as nat)) * pow2((29 - nb) as nat);
    vstd::wrapping::i64_specs::wrapping_mul((v + q.d) as i64, q.c as i64) as int / 0x1000_0000
}

/// Reads the three codes of one granule in one subband: one group of `q.bits` bits split
/// into three base-`nlevels` digits, lowest first, or three codes of `q.bits` bits. Also
/// gives the width of each code.
fn read_codes(reader: &mut BitReader, q: QuantizeSpec) -> (r: RadxResult<(Vec<i64>, u32)>)
    requires
        old(reader).wf(),
        quant_ok(q),
    ensures
        final(reader).wf(),
        final(reader).data() == old(reader).data(),
        ({
            let need = if q.group != 0 { q.bits as int } else { 3 * q.bits as int };
            old(reader).pos() + need <= old(reader).len_bits() ==> r is Ok
        }),
        r is Ok ==> ({
            let s = old(reader).data();
            let p = old(reader).pos();
            let codes = r->Ok_0.0@;
            let nb = r->Ok_0.1;
            &&& codes.len() == 3
            &&& forall|i: int| 0 <= i < 3 ==> #[trigger] codes[i] as int == unit_codes(s, p, q)[i]
            &&& final(reader).pos() == p + codes_len(q)
            &&& nb == code_width(q)
            &&& forall|i: int| 0 <= i < 3 ==> 0 <= #[trigger] codes[i] < pow2(nb as nat)
            &&& if q.group != 0 {
                let g = bits_value(s, p, q.bits as nat) as int;
                &&& final(reader).pos() == p + q.bits
                &&& codes[0] == g % q.nlevels as int
                &&& codes[1] == g / q.nlevels as int % q.nlevels as int
                &&& codes[2] == g / q.nlevels as int / q.nlevels as int % q.nlevels as int
            } else {
                &&& final(reader).pos() == p + 3 * q.bits
                &&& forall|i: int| 0 <= i < 3 ==> #[trigger] codes[i] == bits_value(
                    s,
                    p + i * q.bits,
                    q.bits as nat,
                )
            }
        }),
{
    let ghost s = reader.data();
    let ghost p = reader.pos();
    let mut codes: Vec<i64> = Vec::new();
    if q.group != 0 {
        let mut grouped = match reader.read(q.bits) {
            Ok(v) => v as i64,
            Err(e) => return Err(e),
        };
        let ghost g = grouped as int;
        proof {
            lemma_pow2_mono(q.bits as nat, 16);
            reveal_with_fuel(pow2, 17);
        }
        codes.push(grouped % q.nlevels);
        grouped = grouped / q.nlevels;
        codes.push(grouped % q.nlevels);
        grouped = grouped / q.nlevels;
        codes.push(grouped % q.nlevels);
        Ok((codes, q.group))
    } else {
        let mut i: usize = 0;
        while i < 3
            invariant
                i <= 3,
                reader.wf(),
                reader.data() == s,
                s == old(reader).data(),
                p == old(reader).pos(),
                2 <= q.bits <= 16,
                q.group == 0,
                reader.pos() == p + i * q.bits,
                codes@.len() == i,
                forall|j: int| 0 <= j < i ==> #[trigger] codes@[j] == bits_value(s, p + j * q.bits, q.bits as nat),
                forall|j: int| 0 <= j < i ==> 0 <= #[trigger] codes@[j] < pow2(q.bits as nat),
            decreases 3 - i,
        {
            let ghost pos = reader.pos();
            let v = match reader.read(q.bits) {
                Ok(v) => v,
                Err(e) => {
                    proof {
                        assert(pos + q.bits <= p + 3 * q.bits) by (nonlinear_arith)
                            requires
                                pos == p + i * q.bits,
                                i < 3,
                                q.bits >= 0,
                        ;
                    }
                    return Err(e);
                },
            };
            proof {
                lemma_pow2_mono(q.bits as nat, 16);
                reveal_with_fuel(pow2, 17);
            }
            codes.push(v as i64);
            proof {
                assert(pos + q.bits == p + (i + 1) * q.bits) by (nonlinear_arith)
                    requires
                        pos == p + i * q.bits,
                ;
                assert(codes@[i as int] == bits_value(s, p + i * q.bits, q.bits as nat));
            }
            i = i + 1;
        }
        assert(codes@[0] == bits_value(s, p + 0 * q.bits, q.bits as nat));
        assert(codes@[1] == bits_value(s, p + 1 * q.bits, q.bits as nat));
        assert(codes@[2] == bits_value(s, p + 2 * q.bits, q.bits as nat));
        assert(p + 0 * q.bits == p && p + 1 * q.bits == p + q.bits);
        Ok((codes, q.bits))
    }
}

pub proof fn lemma_pow2_add(a: nat, b: nat)
    ensures
        pow2(a) * pow2(b) == pow2(a + b),
    decreases a,
{
    if a > 0 {
        lemma_pow2_add((a - 1) as nat, b);
        assert(pow2(a + b) == 2 * pow2((a - 1 + b) as nat));
        assert(pow2(a) * pow2(b) == 2 * (pow2((a - 1) as nat) * pow2(b))) by (nonlinear_arith)
            requires
                pow2(a) == 2 * pow2((a - 1) as nat),
        ;
        assert(((a - 1) as nat + b) as nat == (a - 1 + b) as nat);
    } else {
        assert(pow2(0) == 1);
        assert(a + b == b);
    }
}

proof fn lemma_pow2_28()
    ensures
        pow2(28) == 0x1000_0000,
        pow2(0) == 1,
        pow2(40) == 0x100_0000_0000,
{
    reveal_with_fuel(pow2, 41);
}

/// Dequantizes three codes of `nb` bits.
fn dequantize_codes(codes: &Vec<i64>, nb: u32, q: QuantizeSpec) -> (r: Vec<i64>)
    requires
        codes@.len() == 3,
        2 <= nb <= 16,
        quant_ok(q),
        forall|i: int| 0 <= i < 3 ==> 0 <= #[trigger] codes@[i] < pow2(nb as nat),
    ensures
        r@.len() == 3,
        forall|i: int| 0 <= i < 3 ==> #[trigger] r@[i] == dequantize(codes@[i] as int, nb as nat, q),
{
    proof {
        lemma_pow2_add((nb - 1) as nat, (29 - nb) as nat);
        lemma_pow2_28();
        lemma_pow2_mono((nb - 1) as nat, 40);
        lemma_pow2_mono((29 - nb) as nat, 40);
        lemma_pow2_mono(0, (nb - 1) as nat);
        lemma_pow2_mono(0, (29 - nb) as nat);
        assert(pow2(nb as nat) == 2 * pow2((nb - 1) as nat));
    }
    let half = pow2_exec(nb - 1) as i64;
    let lift = pow2_exec(29 - nb) as i64;
    let mut out: Vec<i64> = Vec::new();
    let mut i: usize = 0;
    while i < 3
        invariant
            i <= 3,
            codes@.len() == 3,
            2 <= nb <= 16,
            half == pow2((nb - 1) as nat),
            lift == pow2((29 - nb) as nat),
            half * 2 == pow2(nb as nat),
            half * lift == 0x1000_0000,
            half >= 1,
            lift >= 1,
            forall|j: int| 0 <= j < 3 ==> 0 <= #[trigger] codes@[j] < pow2(nb as nat),
            quant_ok(q),
            out@.len() == i,
            forall|j: int| 0 <= j < i ==> #[trigger] out@[j] == dequantize(codes@[j] as int, nb as nat, q),
        decreases 3 - i,
    {
        let x = codes[i];
        assert(-0x1000_0000 <= (x - half) * lift <= 0x1000_0000) by (nonlinear_arith)
            requires
                0 <= x < 2 * half,
                half * lift == 0x1000_0000,
                half >= 1,
                lift >= 1,
        ;
        let v = (x - half) * lift;
        out.push(asr28((v + q.d).wrapping_mul(q.c)));
        i = i + 1;
    }
    out
}

/// Bit offset of subband `sb`'s allocation field from the end of the frame word.
pub open spec fn alloc_off(sb: int) -> int {
    if sb < 4 {
        4 * sb
    } else if sb < 11 {
        16 + 3 * (sb - 4)
    } else {
        37 + 2 * (sb - 11)
    }
}

/// The `n` six-bit scalefactors sent from bit `p`.
pub open spec fn payload_at(s: Seq<u8>, p: int, n: nat) -> Seq<int> {
    Seq::new(n, |i: int| bits_value(s, p + 6 * i, 6) as int)
}

/// Reads the scalefactors of one subband under its classification.
fn read_scalefactors(reader: &mut BitReader, scfsi: u32) -> (r: RadxResult<(u32, u32, u32)>)
    requires
        old(reader).wf(),
        scfsi <= 3,
    ensures
        final(reader).wf(),
        final(reader).data() == old(reader).data(),
        old(reader).pos() + 6 * payload_len(scfsi as int) <= old(reader).len_bits() ==> r is Ok,
        r is Ok ==> {
            let t = r->Ok_0;
            &&& (t.0 as int, t.1 as int, t.2 as int) == expand_sf(
                scfsi as int,
                payload_at(old(reader).data(), old(reader).pos(), payload_len(scfsi as int)),
            )
            &&& final(reader).pos() == old(reader).pos() + 6 * payload_len(scfsi as int)
        },
{
    let ghost s = reader.data();
    let ghost p = reader.pos();
    let n: usize = if scfsi == 0 {
        3
    } else if scfsi == 2 {
        1
    } else {
        2
    };
    let mut vals: Vec<u32> = Vec::new();
    let mut i: usize = 0;
    while i < n
        invariant
            i <= n,
            n == payload_len(scfsi as int),
            reader.wf(),
            reader.data() == s,
            s == old(reader).data(),
            p == old(reader).pos(),
            reader.pos() == p + 6 * i,
            vals@.len() == i,
            forall|j: int| 0 <= j < i ==> #[trigger] vals@[j] as int == bits_value(s, p + 6 * j, 6),
        decreases n - i,
    {
        let v = match reader.read(6) {
            Ok(v) => v,
            Err(e) => return Err(e),
        };
        proof {
            reveal_with_fuel(pow2, 7);
        }
        vals.push(v);
        i = i + 1;
    }
    let ghost pl = payload_at(s, p, n as nat);
    assert(forall|j: int| 0 <= j < n ==> vals@[j] as int == #[trigger] pl[j]);
    let t = if scfsi == 0 {
        (vals[0], vals[1], vals[2])
    } else if scfsi == 1 {
        (vals[0], vals[0], vals[1])
    } else if scfsi == 2 {
        (vals[0], vals[0], vals[0])
    } else {
        (vals[0], vals[1], vals[1])
    };
    Ok(t)
}

/// The allocation of subband `sb` in the frame whose side information starts at bit `p`.
pub open spec fn frame_alloc(s: Seq<u8>, p: int, sb: int) -> int {
    bits_value(s, p + alloc_off(sb), alloc_bits(sb)) as int
}

/// The classification of subband `sb`.
pub open spec fn frame_scfsi(s: Seq<u8>, p: int, sb: int) -> int {
    bits_value(s, p + 75 + 2 * sb, 2) as int
}

/// Where the scalefactors of subband `sb` start: after the allocations, the
/// classifications, and the scalefactors of the coded subbands before it.
pub open spec fn sf_off(s: Seq<u8>, p: int, sb: nat) -> int
    decreases sb,
{
    if sb == 0 {
        p + 135
    } else {
        let b = sb - 1;
        sf_off(s, p, (sb - 1) as nat) + if frame_alloc(s, p, b) != 0 {
            6 * payload_len(frame_scfsi(s, p, b)) as int
        } else {
            0
        }
    }
}

/// The three parts' scalefactors of subband `sb`; zeros where it is not coded.
pub open spec fn frame_triple(s: Seq<u8>, p: int, sb: int) -> (int, int, int) {
    if frame_alloc(s, p, sb) != 0 {
        expand_sf(
            frame_scfsi(s, p, sb),
            payload_at(s, sf_off(s, p, sb as nat), payload_len(frame_scfsi(s, p, sb))),
        )
    } else {
        (0, 0, 0)
    }
}

/// The dequantization row of subband `sb`.
pub open spec fn frame_quant(s: Seq<u8>, p: int, sb: int) -> QuantizeSpec {
    quant_of(sb, frame_alloc(s, p, sb))
}

/// Bits of one granule of subband `sb`.
pub open spec fn unit_need(s: Seq<u8>, p: int, sb: int) -> int {
    if frame_alloc(s, p, sb) != 0 {
        codes_len(frame_quant(s, p, sb))
    } else {
        0
    }
}

/// Where unit `u` of the sample data starts; unit `u` is part `u / 120`, granule
/// `u / 30 % 4`, subband `u % 30`.
pub open spec fn unit_off(s: Seq<u8>, p: int, u: nat) -> int
    decreases u,
{
    if u == 0 {
        sf_off(s, p, 30)
    } else {
        unit_off(s, p, (u - 1) as nat) + unit_need(s, p, (u - 1) % 30)
    }
}

/// Subband sample `idx` of granule `gr` of part `part` in subband `sb`: its code
/// dequantized and scaled by the part's scalefactor from `sf`; zero where the subband is
/// not coded.
pub open spec fn frame_col(s: Seq<u8>, p: int, sf: Seq<i64>, part: int, gr: int, idx: int, sb: int) -> i64 {
    if sb >= 30 || frame_alloc(s, p, sb) == 0 {
        0
    } else {
        let q = frame_quant(s, p, sb);
        let c = unit_codes(s, unit_off(s, p, (part * 120 + gr * 30 + sb) as nat), q)[idx];
        let tr = frame_triple(s, p, sb);
        let f = if part == 0 {
            tr.0
        } else if part == 1 {
            tr.1
        } else {
            tr.2
        };
        (vstd::wrapping::i64_specs::wrapping_mul(dequantize(c, code_width(q), q) as i64, sf[f]) as int
            / 0x1000_0000) as i64
    }
}

/// The 36 columns of 32 subband samples of the frame whose side information starts at `p`.
pub open spec fn frame_cols(s: Seq<u8>, p: int, sf: Seq<i64>) -> Seq<Seq<i64>> {
    Seq::new(36, |t: int| Seq::new(32, |sb: int| frame_col(s, p, sf, t / 12, t % 12 / 3, t % 3, sb)))
}

/// Whether a complete frame starts at bit `q`: the sync word, all its bits present, and
/// every scalefactor of a coded subband inside the table.
pub open spec fn frame_complete(s: Seq<u8>, q: int) -> bool {
    &&& q + 32 <= s.len() * 8
    &&& bits_value(s, q, 32) == FRAME_SYNC
    &&& unit_off(s, q + 32, 360) <= s.len() * 8
    &&& forall|sb: int| 0 <= sb < 30 && frame_alloc(s, q + 32, sb) != 0 ==> {
        &&& (#[trigger] frame_triple(s, q + 32, sb)).0 < 63
        &&& frame_triple(s, q + 32, sb).1 < 63
        &&& frame_triple(s, q + 32, sb).2 < 63
    }
}

pub proof fn lemma_sf_off_mono(s: Seq<u8>, p: int, a: nat, b: nat)
    requires
        a <= b,
    ensures
        p + 135 <= sf_off(s, p, a) <= sf_off(s, p, b),
    decreases b,
{
    if b > 0 {
        if a < b {
            lemma_sf_off_mono(s, p, a, (b - 1) as nat);
        } else {
            lemma_sf_off_mono(s, p, 0, (b - 1) as nat);
        }
    }
}

pub proof fn lemma_unit_off_mono(s: Seq<u8>, p: int, a: nat, b: nat)
    requires
        a <= b,
    ensures
        sf_off(s, p, 30) <= unit_off(s, p, a) <= unit_off(s, p, b),
    decreases b,
{
    if b > 0 {
        if a < b {
            lemma_unit_off_mono(s, p, a, (b - 1) as nat);
        } else {
            lemma_unit_off_mono(s, p, 0, (b - 1) as nat);
        }
        let q = frame_quant(s, p, (b - 1) % 30);
        assert(unit_need(s, p, (b - 1) % 30) >= 0);
    }
}

/// The allocation and scalefactors of each coded subband.
struct SideInfo {
    allocations: Vec<u32>,
    scalefactors: Vec<(u32, u32, u32)>,
}

/// Reads the allocations, the classifications and the scalefactors of a frame.
fn read_side_info(reader: &mut BitReader) -> (r: RadxResult<SideInfo>)
    requires
        old(reader).wf(),
    ensures
        final(reader).wf(),
        final(reader).data() == old(reader).data(),
        sf_off(old(reader).data(), old(reader).pos(), 30) <= old(reader).len_bits() ==> r is Ok,
        r is Ok ==> {
            let si = r->Ok_0;
            let s = old(reader).data();
            let p = old(reader).pos();
            &&& si.allocations@.len() == SUBBANDS
            &&& si.scalefactors@.len() == SUBBANDS
            &&& forall|sb: int| 0 <= sb < SUBBANDS ==> #[trigger] si.allocations@[sb] as int == frame_alloc(s, p, sb)
            &&& forall|sb: int| 0 <= sb < SUBBANDS ==> si.allocations@[sb] < pow2(alloc_bits(sb))
            &&& forall|sb: int| 0 <= sb < SUBBANDS ==> ((#[trigger] si.scalefactors@[sb]).0 as int, si.scalefactors@[sb].1 as int, si.scalefactors@[sb].2 as int) == frame_triple(s, p, sb)
            &&& final(reader).pos() == sf_off(s, p, 30)
        },
{
    let ghost s = reader.data();
    let ghost p = reader.pos();
    proof {
        lemma_sf_off_mono(s, p, 0, 30);
    }
    let mut allocations: Vec<u32> = Vec::new();
    let mut sb: usize = 0;
    while sb < SUBBANDS
        invariant
            sb <= SUBBANDS,
            reader.wf(),
            reader.data() == s,
            s == old(reader).data(),
            p == old(reader).pos(),
            p + 135 <= sf_off(s, p, 30),
            reader.pos() == p + alloc_off(sb as int),
            allocations@.len() == sb,
            forall|j: int| 0 <= j < sb ==> #[trigger] allocations@[j] as int == frame_alloc(s, p, j),
            forall|j: int| 0 <= j < sb ==> #[trigger] allocations@[j] < pow2(alloc_bits(j)),
        decreases SUBBANDS - sb,
    {
        let w = alloc_bits_exec(sb);
        let a = match reader.read(w) {
            Ok(v) => v,
            Err(e) => return Err(e),
        };
        proof {
            reveal_with_fuel(pow2, 5);
        }
        allocations.push(a);
        sb = sb + 1;
    }
    let mut scfsi: Vec<u32> = Vec::new();
    let mut sb: usize = 0;
    while sb < SUBBANDS
        invariant
            sb <= SUBBANDS,
            reader.wf(),
            reader.data() == s,
            s == old(reader).data(),
            p == old(reader).pos(),
            p + 135 <= sf_off(s, p, 30),
            reader.pos() == p + 75 + 2 * sb,
            scfsi@.len() == sb,
            forall|j: int| 0 <= j < sb ==> #[trigger] scfsi@[j] as int == frame_scfsi(s, p, j),
            forall|j: int| 0 <= j < sb ==> #[trigger] scfsi@[j] <= 3,
        decreases SUBBANDS - sb,
    {
        let v = match reader.read(2) {
            Ok(v) => v,
            Err(e) => return Err(e),
        };
        proof {
            reveal_with_fuel(pow2, 3);
        }
        scfsi.push(v);
        sb = sb + 1;
    }
    let mut scalefactors: Vec<(u32, u32, u32)> = Vec::new();
    let mut sb: usize = 0;
    while sb < SUBBANDS
        invariant
            sb <= SUBBANDS,
            reader.wf(),
            reader.data() == s,
            s == old(reader).data(),
            p == old(reader).pos(),
            reader.pos() == sf_off(s, p, sb as nat),
            scfsi@.len() == SUBBANDS,
            allocations@.len() == SUBBANDS,
            forall|j: int| 0 <= j < SUBBANDS ==> #[trigger] scfsi@[j] <= 3,
            forall|j: int| 0 <= j < SUBBANDS ==> #[trigger] scfsi@[j] as int == frame_scfsi(s, p, j),
            forall|j: int| 0 <= j < SUBBANDS ==> #[trigger] allocations@[j] as int == frame_alloc(s, p, j),
            forall|j: int| 0 <= j < SUBBANDS ==> #[trigger] allocations@[j] < pow2(alloc_bits(j)),
            scalefactors@.len() == sb,
            forall|j: int| 0 <= j < sb ==> ((#[trigger] scalefactors@[j]).0 as int, scalefactors@[j].1 as int, scalefactors@[j].2 as int) == frame_triple(s, p, j),
        decreases SUBBANDS - sb,
    {
        let mut t = (0u32, 0u32, 0u32);
        proof {
            lemma_sf_off_mono(s, p, (sb + 1) as nat, 30);
        }
        if allocations[sb] != 0 {
            t = match read_scalefactors(reader, scfsi[sb]) {
                Ok(t) => t,
                Err(e) => return Err(e),
            };
        }
        scalefactors.push(t);
        sb = sb + 1;
    }
    Ok(SideInfo { allocations, scalefactors })
}

/// Entry `k` of the windowed history: the history value that the synthesis gathers into
/// position `k` from offset `off`, times window entry `k`, in 28-bit fixed point.
pub open spec fn windowed(v: Seq<i64>, d: Seq<i64>, off: int, k: int) -> int {
    let r = k % 64;
    let src = if r < 32 {
        (off + (k / 64) * 128 + r) % 1024
    } else {
        (off + (k / 64) * 128 + r + 64) % 1024
    };
    vstd::wrapping::i64_specs::wrapping_mul(v[src], d[k]) as int / 0x1000_0000
}

/// The sum of the first `n` windowed entries of output `sb`.
pub open spec fn window_sum(v: Seq<i64>, d: Seq<i64>, off: int, sb: int, n: nat) -> int
    decreases n,
{
    if n == 0 {
        0
    } else {
        window_sum(v, d, off, sb, (n - 1) as nat) + windowed(v, d, off, (n - 1) * 32 + sb)
    }
}

/// History entry `i` computed from the 32 subband samples `x`.
pub open spec fn matrix_sum(n: Seq<i64>, x: Seq<i64>, i: int, j: nat) -> int
    decreases j,
{
    if j == 0 {
        0
    } else {
        matrix_sum(n, x, i, (j - 1) as nat) + vstd::wrapping::i64_specs::wrapping_mul(
            n[32 * i + j - 1],
            x[j - 1],
        ) as int / 0x1000_0000
    }
}

proof fn lemma_sum_bounds(n: Seq<i64>, x: Seq<i64>, i: int, j: nat, v: Seq<i64>, d: Seq<i64>, off: int, sb: int)
    ensures
        -0x8_0000_0000 * j <= matrix_sum(n, x, i, j) <= 0x8_0000_0000 * j,
        -0x8_0000_0000 * j <= window_sum(v, d, off, sb, j) <= 0x8_0000_0000 * j,
    decreases j,
{
    if j > 0 {
        lemma_sum_bounds(n, x, i, (j - 1) as nat, v, d, off, sb);
    }
}

/// The output sample `sb` of a synthesis step whose history is `v` at offset `off`.
pub open spec fn synth_out(v: Seq<i64>, d: Seq<i64>, off: int, sb: int) -> i16 {
    clamp16((-window_sum(v, d, off, sb, 16)) / 0x2000)
}

/// The history after one synthesis step from offset `off` with the subband samples `x`.
pub open spec fn synth_history(v: Seq<i64>, off: int, n: Seq<i64>, x: Seq<i64>) -> Seq<i64> {
    let r = (off + 960) % 1024;
    Seq::new(1024, |k: int| if r <= k < r + 64 { matrix_sum(n, x, k - r, 32) as i64 } else { v[k] })
}

/// The history, the offset and the output after synthesis steps over the columns `xs`.
pub open spec fn synth_run(v: Seq<i64>, off: int, n: Seq<i64>, d: Seq<i64>, xs: Seq<Seq<i64>>) -> (
    Seq<i64>,
    int,
    Seq<i16>,
)
    decreases xs.len(),
{
    if xs.len() == 0 {
        (v, off, Seq::empty())
    } else {
        let prev = synth_run(v, off, n, d, xs.drop_last());
        let v2 = synth_history(prev.0, prev.1, n, xs.last());
        let o2 = (prev.1 + 960) % 1024;
        (v2, o2, prev.2 + Seq::new(32, |sb: int| synth_out(v2, d, o2, sb)))
    }
}

proof fn lemma_synth_run_push(v: Seq<i64>, off: int, n: Seq<i64>, d: Seq<i64>, xs: Seq<Seq<i64>>, x: Seq<i64>)
    ensures
        ({
            let prev = synth_run(v, off, n, d, xs);
            let v2 = synth_history(prev.0, prev.1, n, x);
            let o2 = (prev.1 + 960) % 1024;
            synth_run(v, off, n, d, xs.push(x)) == (v2, o2, prev.2 + Seq::new(32, |sb: int| synth_out(v2, d, o2, sb)))
        }),
{
    assert(xs.push(x).drop_last() =~= xs);
}

/// One synthesis step: moves the history offset back by 64, fills the 64 new history entries
/// from the 32 subband samples `x`, and appends the 32 output samples to `out`.
fn synthesize(v: &mut Vec<i64>, v_off: usize, x: &Vec<i64>, n: &Vec<i64>, d: &Vec<i64>, out: &mut Vec<i16>) -> (r: usize)
    requires
        old(v)@.len() == 1024,
        v_off < 1024,
        v_off % 64 == 0,
        x@.len() == 32,
        n@.len() == 2048,
        d@.len() == 512,
    ensures
        r == (v_off + 960) % 1024,
        r % 64 == 0,
        final(v)@.len() == 1024,
        forall|i: int| 0 <= i < 64 ==> #[trigger] final(v)@[r + i] == matrix_sum(n@, x@, i, 32),
        forall|k: int| 0 <= k < 1024 && !(r <= k < r + 64) ==> #[trigger] final(v)@[k] == old(v)@[k],
        final(out)@ == old(out)@ + Seq::new(32, |sb: int| synth_out(final(v)@, d@, r as int, sb)),
        final(v)@ == synth_history(old(v)@, v_off as int, n@, x@),
{
    let off = (v_off + 960) % 1024;
    let ghost v0 = v@;
    let mut i: usize = 0;
    while i < 64
        invariant
            i <= 64,
            off == (v_off + 960) % 1024,
            off % 64 == 0,
            off < 1024,
            v@.len() == 1024,
            x@.len() == 32,
            n@.len() == 2048,
            forall|j: int| 0 <= j < i ==> #[trigger] v@[off + j] == matrix_sum(n@, x@, j, 32),
            forall|k: int| 0 <= k < 1024 && !(off <= k < off + i) ==> #[trigger] v@[k] == v0[k],
        decreases 64 - i,
    {
        let mut sum: i64 = 0;
        let mut j: usize = 0;
        while j < 32
            invariant
                i < 64,
                j <= 32,
                x@.len() == 32,
                n@.len() == 2048,
                sum == matrix_sum(n@, x@, i as int, j as nat),
            decreases 32 - j,
        {
            proof {
                lemma_sum_bounds(n@, x@, i as int, j as nat, Seq::empty(), Seq::empty(), 0, 0);
            }
            sum = sum + asr28(n[32 * i + j].wrapping_mul(x[j]));
            j = j + 1;
        }
        v.set(off + i, sum);
        i = i + 1;
    }
    let ghost v1 = v@;
    proof {
        assert forall|k: int| 0 <= k < 1024 implies #[trigger] v1[k] == synth_history(v0, v_off as int, n@, x@)[k] by {
            if off <= k < off + 64 {
                assert(v1[off + (k - off)] == matrix_sum(n@, x@, k - off, 32));
            }
        }
        assert(v1 =~= synth_history(v0, v_off as int, n@, x@));
    }
    let ghost start = out@;
    let mut sb: usize = 0;
    while sb < 32
        invariant
            sb <= 32,
            off < 1024,
            v@ == v1,
            v1.len() == 1024,
            d@.len() == 512,
            out@ =~= start + Seq::new(sb as nat, |b: int| synth_out(v1, d@, off as int, b)),
        decreases 32 - sb,
    {
        let mut acc: i64 = 0;
        let mut i: usize = 0;
        while i < 16
            invariant
                sb < 32,
                i <= 16,
                off < 1024,
                v@ == v1,
                v1.len() == 1024,
                d@.len() == 512,
                acc == -window_sum(v1, d@, off as int, sb as int, i as nat),
            decreases 16 - i,
        {
            proof {
                lemma_sum_bounds(Seq::empty(), Seq::empty(), 0, i as nat, v1, d@, off as int, sb as int);
            }
            let k = i * 32 + sb;
            let r = k % 64;
            let src = if r < 32 {
                (off + (k / 64) * 128 + r) % 1024
            } else {
                (off + (k / 64) * 128 + r + 64) % 1024
            };
            acc = acc - asr28(v[src].wrapping_mul(d[k]));
            i = i + 1;
        }
        proof {
            lemma_sum_bounds(Seq::empty(), Seq::empty(), 0, 16, v1, d@, off as int, sb as int);
        }
        out.push(clamp_i16(asr13(acc)));
        sb = sb + 1;
    }
    off
}

/// Reads and dequantizes the three samples of granule `gr` of part `part` in subband `sb`,
/// scaled by the part's scalefactor; zeros where the subband is not coded.
fn decode_unit(
    reader: &mut BitReader,
    sf: &Vec<i64>,
    a: u32,
    t: (u32, u32, u32),
    part: usize,
    gr: usize,
    sb: usize,
    Ghost(p0): Ghost<int>,
) -> (r: RadxResult<(i64, i64, i64)>)
    requires
        old(reader).wf(),
        sf@.len() == 63,
        part < 3,
        gr < 4,
        sb < SUBBANDS,
        a as int == frame_alloc(old(reader).data(), p0, sb as int),
        a < pow2(alloc_bits(sb as int)),
        (t.0 as int, t.1 as int, t.2 as int) == frame_triple(old(reader).data(), p0, sb as int),
        old(reader).pos() == unit_off(old(reader).data(), p0, (part * 120 + gr * 30 + sb) as nat),
    ensures
        final(reader).wf(),
        final(reader).data() == old(reader).data(),
        ({
            let s = old(reader).data();
            let u = (part * 120 + gr * 30 + sb) as nat;
            &&& r is Err ==> (unit_off(s, p0, u + 1) > s.len() * 8 || (a != 0 && (t.0 >= 63 || t.1 >= 63 || t.2 >= 63)))
            &&& r is Ok ==> {
                &&& final(reader).pos() == unit_off(s, p0, u + 1)
                &&& r->Ok_0.0 == frame_col(s, p0, sf@, part as int, gr as int, 0, sb as int)
                &&& r->Ok_0.1 == frame_col(s, p0, sf@, part as int, gr as int, 1, sb as int)
                &&& r->Ok_0.2 == frame_col(s, p0, sf@, part as int, gr as int, 2, sb as int)
            }
        }),
{
    let ghost s = reader.data();
    let ghost u = (part * 120 + gr * 30 + sb) as nat;
    proof {
        assert(u % 30 == sb) by (nonlinear_arith)
            requires
                u == part * 120 + gr * 30 + sb,
                sb < 30,
        ;
        assert((u + 1 - 1) as nat == u);
    }
    if a == 0 {
        return Ok((0, 0, 0));
    }
    proof {
        reveal_with_fuel(pow2, 5);
    }
    let quant = if sb < 4 {
        quant_low(a)
    } else {
        quant_high(a)
    };
    assert(quant == frame_quant(s, p0, sb as int));
    let (codes, nb) = match read_codes(reader, quant) {
        Ok(c) => c,
        Err(e) => return Err(e),
    };
    let samples = dequantize_codes(&codes, nb, quant);
    let sf_idx = if part == 0 {
        t.0
    } else if part == 1 {
        t.1
    } else {
        t.2
    };
    if sf_idx >= 63 {
        return Err(RadxError::BadAhxFrameHeader);
    }
    let scale = sf[sf_idx as usize];
    let y0 = asr28(samples[0].wrapping_mul(scale));
    let y1 = asr28(samples[1].wrapping_mul(scale));
    let y2 = asr28(samples[2].wrapping_mul(scale));
    proof {
        let c = unit_codes(s, unit_off(s, p0, u), quant);
        assert(codes@[0] as int == c[0] && codes@[1] as int == c[1] && codes@[2] as int == c[2]);
    }
    Ok((y0, y1, y2))
}

/// A decoder of AHX data: mono, 22050 Hz, 1152 samples per frame.
pub struct AhxDecoder {
    inner: BitReader,
    header: AdxHeader,
    v_off: usize,
    v: Vec<i64>,
    buffer: Vec<i16>,
    buffer_idx: usize,
    n: Vec<i64>,
    d: Vec<i64>,
    sf: Vec<i64>,
    done: bool,
}

impl AhxDecoder {
    pub closed spec fn wf(&self) -> bool {
        &&& self.inner.wf()
        &&& self.v@.len() == 1024
        &&& self.v_off < 1024
        &&& self.v_off % 64 == 0
        &&& self.buffer@.len() == FRAME_SAMPLES
        &&& self.buffer_idx <= FRAME_SAMPLES
        &&& self.n@.len() == 2048
        &&& self.d@.len() == 512
        &&& self.sf@.len() == 63
    }

    /// The whole file's bytes.
    pub closed spec fn data(&self) -> Seq<u8> {
        self.inner.data()
    }

    /// The bit position that the next frame is read from (after aligning to a byte).
    pub closed spec fn pos(&self) -> int {
        self.inner.pos()
    }

    /// The samples of the current frame.
    pub closed spec fn buffered(&self) -> Seq<i16> {
        self.buffer@
    }

    /// The index of the next sample of the current frame.
    pub closed spec fn idx(&self) -> int {
        self.buffer_idx as int
    }

    pub closed spec fn header(&self) -> AdxHeader {
        self.header
    }

    /// The synthesis history and its offset.
    pub closed spec fn synthesis_state(&self) -> (Seq<i64>, int) {
        (self.v@, self.v_off as int)
    }

    /// The cosine matrix, the synthesis window and the scalefactor table.
    pub closed spec fn tables(&self) -> (Seq<i64>, Seq<i64>, Seq<i64>) {
        (self.n@, self.d@, self.sf@)
    }

    /// Whether the stream has ended: every later call gives `None`.
    pub closed spec fn done(&self) -> bool {
        self.done
    }

    /// A decoder of the frames that start at byte `data_start` of `inner`.
    /// The state `from_header` starts in: at byte `data_start` of `inner` (or its end), with no
    /// frame buffered, a zero synthesis history, and the fixed tables.
    pub open spec fn started(r: AhxDecoder, header: AdxHeader, inner: Seq<u8>, data_start: int) -> bool {
        &&& r.wf()
        &&& r.header() == header
        &&& r.data() == inner
        &&& r.pos() == (if data_start <= inner.len() { data_start * 8 } else { inner.len() as int * 8 })
        &&& r.idx() == FRAME_SAMPLES
        &&& r.tables() == (cosine_table(), synthesis_window_table(), sf_table())
        &&& r.synthesis_state() == (Seq::new(1024, |i: int| 0i64), 0int)
        &&& !r.done()
    }

    #[verifier::rlimit(50)]
    pub fn from_header(header: AdxHeader, inner: Vec<u8>, data_start: usize) -> (r: AhxDecoder)
        ensures
            Self::started(r, header, inner@, data_start as int),
    {
        let mut reader = BitReader::new(inner);
        reader.seek(data_start);
        let v: Vec<i64> = vec![0i64; 1024];
        assert(v@ =~= Seq::new(1024, |i: int| 0i64));
        let n = cosine_matrix();
        let d = synthesis_window();
        let sf = scalefactors();
        let r = AhxDecoder {
            inner: reader,
            header,
            v_off: 0,
            v,
            buffer: vec![0i16; FRAME_SAMPLES],
            buffer_idx: FRAME_SAMPLES,
            n,
            d,
            sf,
            done: false,
        };
        assert(r.tables() == (cosine_table(), synthesis_window_table(), sf_table()));
        r
    }

    /// Reads the next frame from the next byte boundary: its word, side information and
    /// samples, then runs the synthesis over its columns. `None` where the word is the end
    /// sentinel.
    fn read_frame(&mut self) -> (r: RadxResult<Option<Vec<i16>>>)
        requires
            old(self).wf(),
        ensures
            final(self).wf(),
            final(self).data() == old(self).data(),
            final(self).header == old(self).header,
            final(self).buffer == old(self).buffer,
            final(self).buffer_idx == old(self).buffer_idx,
            final(self).n == old(self).n,
            final(self).d == old(self).d,
            final(self).sf == old(self).sf,
            ({
                let s = old(self).data();
                let q = (old(self).pos() + 7) / 8 * 8;
                let word = bits_value(s, q, 32);
                &&& q + 32 > s.len() * 8 ==> r == Err::<Option<Vec<i16>>, RadxError>(RadxError::IoError)
                &&& (q + 32 <= s.len() * 8 && word == END_SENTINEL) ==> r == Ok::<Option<Vec<i16>>, RadxError>(None)
                &&& (q + 32 <= s.len() * 8 && word != END_SENTINEL && word != FRAME_SYNC) ==> r == Err::<Option<Vec<i16>>, RadxError>(RadxError::BadAhxFrameHeader)
                &&& frame_complete(s, q) ==> (r is Ok && r->Ok_0 is Some)
                &&& (r is Ok && r->Ok_0 is Some) ==> {
                    &&& word == FRAME_SYNC
                    &&& r->Ok_0->Some_0@.len() == FRAME_SAMPLES
                    &&& synth_run(old(self).v@, old(self).v_off as int, old(self).n@, old(self).d@, frame_cols(s, q + 32, old(self).sf@)) == (
                        final(self).v@,
                        final(self).v_off as int,
                        r->Ok_0->Some_0@,
                    )
                }
            }),
    {
        let ghost v0 = self.v@;
        let ghost off0 = self.v_off as int;
        self.inner.reset();
        let ghost s = self.inner.data();
        let ghost q = self.inner.pos();
        let frame_header = match self.inner.read(32) {
            Ok(v) => v,
            Err(e) => return Err(e),
        };
        proof {
            crate::bitio::lemma_pow2_32_pub();
        }
        if frame_header == END_SENTINEL {
            return Ok(None);
        } else if frame_header != FRAME_SYNC {
            return Err(RadxError::BadAhxFrameHeader);
        }
        let ghost p0 = q + 32;
        proof {
            lemma_unit_off_mono(s, p0, 0, 360);
        }
        let si = match read_side_info(&mut self.inner) {
            Ok(si) => si,
            Err(e) => return Err(e),
        };
        let ghost cols_all = frame_cols(s, p0, self.sf@);
        let ghost mut cols: Seq<Seq<i64>> = Seq::empty();
        let mut pcm: Vec<i16> = Vec::new();
        let mut part: usize = 0;
        while part < 3
            invariant
                part <= 3,
                self.wf(),
                self.inner.data() == s,
                s == old(self).data(),
                q == (old(self).pos() + 7) / 8 * 8,
                q + 32 <= s.len() * 8,
                bits_value(s, q, 32) == FRAME_SYNC,
                p0 == q + 32,
                self.header == old(self).header,
                self.buffer == old(self).buffer,
                self.buffer_idx == old(self).buffer_idx,
                self.n == old(self).n,
                self.d == old(self).d,
                self.sf == old(self).sf,
                v0 == old(self).v@,
                off0 == old(self).v_off as int,
                cols_all == frame_cols(s, p0, self.sf@),
                si.allocations@.len() == SUBBANDS,
                si.scalefactors@.len() == SUBBANDS,
                forall|b: int| 0 <= b < SUBBANDS ==> #[trigger] si.allocations@[b] as int == frame_alloc(s, p0, b),
                forall|b: int| 0 <= b < SUBBANDS ==> si.allocations@[b] < pow2(alloc_bits(b)),
                forall|b: int| 0 <= b < SUBBANDS ==> ((#[trigger] si.scalefactors@[b]).0 as int, si.scalefactors@[b].1 as int, si.scalefactors@[b].2 as int) == frame_triple(s, p0, b),
                cols == cols_all.take(12 * part),
                pcm@.len() == part * 384,
                synth_run(v0, off0, self.n@, self.d@, cols) == (self.v@, self.v_off as int, pcm@),
                self.inner.pos() == unit_off(s, p0, (part * 120) as nat),
            decreases 3 - part,
        {
            let mut gr: usize = 0;
            while gr < 4
                invariant
                    part < 3,
                    gr <= 4,
                    self.wf(),
                    self.inner.data() == s,
                    s == old(self).data(),
                    q == (old(self).pos() + 7) / 8 * 8,
                    q + 32 <= s.len() * 8,
                    bits_value(s, q, 32) == FRAME_SYNC,
                    p0 == q + 32,
                    self.header == old(self).header,
                    self.buffer == old(self).buffer,
                    self.buffer_idx == old(self).buffer_idx,
                    self.n == old(self).n,
                    self.d == old(self).d,
                    self.sf == old(self).sf,
                    v0 == old(self).v@,
                    off0 == old(self).v_off as int,
                    cols_all == frame_cols(s, p0, self.sf@),
                    si.allocations@.len() == SUBBANDS,
                    si.scalefactors@.len() == SUBBANDS,
                    forall|b: int| 0 <= b < SUBBANDS ==> #[trigger] si.allocations@[b] as int == frame_alloc(s, p0, b),
                    forall|b: int| 0 <= b < SUBBANDS ==> si.allocations@[b] < pow2(alloc_bits(b)),
                    forall|b: int| 0 <= b < SUBBANDS ==> ((#[trigger] si.scalefactors@[b]).0 as int, si.scalefactors@[b].1 as int, si.scalefactors@[b].2 as int) == frame_triple(s, p0, b),

                    cols == cols_all.take(12 * part + 3 * gr),
                    pcm@.len() == part * 384 + gr * 96,
                    synth_run(v0, off0, self.n@, self.d@, cols) == (self.v@, self.v_off as int, pcm@),
                    self.inner.pos() == unit_off(s, p0, (part * 120 + gr * 30) as nat),
                decreases 4 - gr,
            {
                let mut x0: Vec<i64> = vec![0i64; 32];
                let mut x1: Vec<i64> = vec![0i64; 32];
                let mut x2: Vec<i64> = vec![0i64; 32];
                let ghost vv = self.v@;
                let ghost oo = self.v_off;
                let mut sb: usize = 0;
                while sb < SUBBANDS
                    invariant
                        part < 3,
                        gr < 4,
                        sb <= SUBBANDS,
                        self.wf(),
                        self.inner.data() == s,
                        s == old(self).data(),
                        q == (old(self).pos() + 7) / 8 * 8,
                        q + 32 <= s.len() * 8,
                        bits_value(s, q, 32) == FRAME_SYNC,
                        p0 == q + 32,
                        self.header == old(self).header,
                        self.buffer == old(self).buffer,
                        self.buffer_idx == old(self).buffer_idx,
                        self.n == old(self).n,
                        self.d == old(self).d,
                        self.sf == old(self).sf,
                        v0 == old(self).v@,
                        off0 == old(self).v_off as int,
                        cols_all == frame_cols(s, p0, self.sf@),
                        si.allocations@.len() == SUBBANDS,
                        si.scalefactors@.len() == SUBBANDS,
                        forall|b: int| 0 <= b < SUBBANDS ==> #[trigger] si.allocations@[b] as int == frame_alloc(s, p0, b),
                        forall|b: int| 0 <= b < SUBBANDS ==> si.allocations@[b] < pow2(alloc_bits(b)),
                        forall|b: int| 0 <= b < SUBBANDS ==> ((#[trigger] si.scalefactors@[b]).0 as int, si.scalefactors@[b].1 as int, si.scalefactors@[b].2 as int) == frame_triple(s, p0, b),

                        self.v@ == vv,
                        self.v_off == oo,
                        pcm@.len() == part * 384 + gr * 96,
                        self.inner.pos() == unit_off(s, p0, (part * 120 + gr * 30 + sb) as nat),
                        x0@.len() == 32,
                        x1@.len() == 32,
                        x2@.len() == 32,
                        forall|b: int| 0 <= b < sb ==> #[trigger] x0@[b] == frame_col(s, p0, self.sf@, part as int, gr as int, 0, b),
                        forall|b: int| 0 <= b < sb ==> #[trigger] x1@[b] == frame_col(s, p0, self.sf@, part as int, gr as int, 1, b),
                        forall|b: int| 0 <= b < sb ==> #[trigger] x2@[b] == frame_col(s, p0, self.sf@, part as int, gr as int, 2, b),
                        forall|b: int| sb <= b < 32 ==> #[trigger] x0@[b] == 0,
                        forall|b: int| sb <= b < 32 ==> #[trigger] x1@[b] == 0,
                        forall|b: int| sb <= b < 32 ==> #[trigger] x2@[b] == 0,
                    decreases SUBBANDS - sb,
                {
                    let a = si.allocations[sb];
                    let t = si.scalefactors[sb];
                    proof {
                        lemma_unit_off_mono(s, p0, (part * 120 + gr * 30 + sb + 1) as nat, 360);
                    }
                    let (y0, y1, y2) = match decode_unit(&mut self.inner, &self.sf, a, t, part, gr, sb, Ghost(p0)) {
                        Ok(y) => y,
                        Err(e) => return Err(e),
                    };
                    x0.set(sb, y0);
                    x1.set(sb, y1);
                    x2.set(sb, y2);
                    sb = sb + 1;
                }
                let ghost t0 = 12 * part + 3 * gr;
                proof {
                    assert(t0 / 12 == part && t0 % 12 / 3 == gr && t0 % 3 == 0) by (nonlinear_arith)
                        requires
                            t0 == 12 * part + 3 * gr,
                            gr < 4,
                    ;
                    assert((t0 + 1) / 12 == part && (t0 + 1) % 12 / 3 == gr && (t0 + 1) % 3 == 1) by (nonlinear_arith)
                        requires
                            t0 == 12 * part + 3 * gr,
                            gr < 4,
                    ;
                    assert((t0 + 2) / 12 == part && (t0 + 2) % 12 / 3 == gr && (t0 + 2) % 3 == 2) by (nonlinear_arith)
                        requires
                            t0 == 12 * part + 3 * gr,
                            gr < 4,
                    ;
                    assert(x0@ =~= cols_all[t0 as int]);
                    assert(t0 + 2 < 36);
                    assert forall|b: int| 0 <= b < 32 implies #[trigger] x1@[b] == cols_all[t0 + 1][b] by {
                        assert(cols_all[t0 + 1][b] == frame_col(s, p0, self.sf@, part as int, gr as int, 1, b));
                    }
                    assert forall|b: int| 0 <= b < 32 implies #[trigger] x2@[b] == cols_all[t0 + 2][b] by {
                        assert(cols_all[t0 + 2][b] == frame_col(s, p0, self.sf@, part as int, gr as int, 2, b));
                    }
                    assert(x1@ =~= cols_all[t0 + 1]);
                    assert(x2@ =~= cols_all[t0 + 2]);
                }
                self.v_off = synthesize(&mut self.v, self.v_off, &x0, &self.n, &self.d, &mut pcm);
                proof {
                    lemma_synth_run_push(v0, off0, self.n@, self.d@, cols, x0@);
                    cols = cols.push(x0@);
                    assert(cols =~= cols_all.take(t0 + 1));
                }
                self.v_off = synthesize(&mut self.v, self.v_off, &x1, &self.n, &self.d, &mut pcm);
                proof {
                    lemma_synth_run_push(v0, off0, self.n@, self.d@, cols, x1@);
                    cols = cols.push(x1@);
                    assert(cols =~= cols_all.take(t0 + 2));
                }
                self.v_off = synthesize(&mut self.v, self.v_off, &x2, &self.n, &self.d, &mut pcm);
                proof {
                    lemma_synth_run_push(v0, off0, self.n@, self.d@, cols, x2@);
                    cols = cols.push(x2@);
                    assert(cols =~= cols_all.take(t0 + 3));
                }
                gr = gr + 1;
            }
            part = part + 1;
        }
        assert(cols =~= cols_all);
        Ok(Some(pcm))
    }

    /// Always one channel.
    pub fn channels(&self) -> (r: u32)
        ensures
            r == 1,
    {
        1
    }

    /// Always 22050 Hz.
    pub fn sample_rate(&self) -> (r: u32)
        ensures
            r == AHX_SAMPLE_RATE,
    {
        AHX_SAMPLE_RATE
    }

    /// AHX never loops.
    pub fn loop_info(&self) -> (r: Option<LoopInfo>)
        ensures
            r is None,
    {
        None
    }

    /// One call of `next_sample` from state `a` to state `b`, giving `r`.
    pub open spec fn step(a: AhxDecoder, b: AhxDecoder, r: Option<Sample>) -> bool {
        &&& b.wf()
        &&& b.data() == a.data()
        &&& b.header() == a.header()
        &&& b.tables() == a.tables()
        &&& a.done() ==> r is None && b == a
        &&& r is None ==> b.done()
        &&& (!a.done() && a.idx() < FRAME_SAMPLES) ==> {
            &&& r is Some
            &&& r->Some_0@ == seq![a.buffered()[a.idx()]]
            &&& b.idx() == a.idx() + 1
            &&& b.pos() == a.pos()
            &&& b.buffered() == a.buffered()
            &&& b.synthesis_state() == a.synthesis_state()
        }
        &&& (!a.done() && a.idx() == FRAME_SAMPLES) ==> ({
            let s = a.data();
            let q = (a.pos() + 7) / 8 * 8;
            let word = bits_value(s, q, 32);
            let run = synth_run(
                a.synthesis_state().0,
                a.synthesis_state().1,
                a.tables().0,
                a.tables().1,
                frame_cols(s, q + 32, a.tables().2),
            );
            &&& (q + 32 > s.len() * 8 || word != FRAME_SYNC) ==> r is None
            &&& frame_complete(s, q) ==> r is Some
            &&& r is Some ==> {
                &&& b.idx() == 1
                &&& b.synthesis_state() == (run.0, run.1)
                &&& b.buffered() == run.2
                &&& r->Some_0@ == seq![run.2[0]]
            }
        })
    }

    /// The next sample, as a one-channel sample; a frame is read whenever the current one is
    /// used up. `None` once the end sentinel, or data that cannot be decoded, is reached, and
    /// on every call after that.
    pub fn next_sample(&mut self) -> (r: Option<Sample>)
        requires
            old(self).wf(),
        ensures
            Self::step(*old(self), *final(self), r),
    {
        if self.done {
            return None;
        }
        if self.buffer_idx == FRAME_SAMPLES {
            match self.read_frame() {
                Ok(Some(pcm)) => {
                    self.buffer = pcm;
                    self.buffer_idx = 0;
                },
                _ => {
                    self.done = true;
                    return None;
                },
            }
        }
        let sample = self.buffer[self.buffer_idx];
        self.buffer_idx = self.buffer_idx + 1;
        let mut out: Vec<i16> = Vec::new();
        out.push(sample);
        assert(out@ =~= seq![sample]);
        Some(out)
    }
}

} // verus!
