use vstd::prelude::*;

use crate::adx_header::{header_bytes, AdxEncoding, AdxHeader, AdxVersion};
use crate::ahx::{
    alloc_bits, alloc_bits_exec, classify, encoder_alloc, sf_payload, AHX_SAMPLE_RATE,
    FRAME_SAMPLES, FRAME_SYNC, SUBBANDS,
};
use crate::ahx_tables::{
    analysis_window, analysis_window_table, cosine_matrix, cosine_table, inverse_scalefactors,
    isf_table, scalefactors, sf_table,
};
use crate::bitio::{all_bits, bits_of, pack, padded, pow2, pow2_exec, BitWriter};
use crate::fixed::{asr15, asr28};

verus! {

/// Header size of an AHX file.
pub const AHX_HEADER_SIZE: usize = 0x24;

/// The analysis window: the last 512 input samples, in a ring.
struct Window {
    window: Vec<i16>,
    window_idx: usize,
}

/// Sample `i` of the analysis window, newest first: the ring of 512 holds the newest sample
/// just before `idx`, so index 0 is the latest sample and index 511 the oldest.
pub open spec fn ring_at(w: Seq<i16>, idx: int, i: int) -> i16 {
    w[(idx + 511 - i) % 512]
}

/// The analysis window, newest sample first.
pub open spec fn window_view(w: Seq<i16>, idx: int) -> Seq<i16> {
    Seq::new(512, |i: int| ring_at(w, idx, i))
}

/// The 32 subband samples that the analysis gives for the window `win` (newest first).
pub open spec fn poly(win: Seq<i16>, en: Seq<i64>, n: Seq<i64>) -> Seq<i64> {
    Seq::new(32, |sb: int| s_sum(n, Seq::new(64, |i: int| y_sum(win, en, i, 8) as i64), sb, 64) as i64)
}

/// Sample `i` back from the `n`-th input sample (`i = 0` is sample `n - 1`): zero before the
/// first sample and past the last, where the last frame is padded.
pub open spec fn hist_at(x: Seq<i16>, n: int, i: int) -> i16 {
    let m = n - 1 - i;
    if 0 <= m < x.len() {
        x[m]
    } else {
        0
    }
}

/// The window after the first `n` samples of the input `x`.
pub open spec fn hist_view(x: Seq<i16>, n: int) -> Seq<i16> {
    Seq::new(512, |i: int| hist_at(x, n, i))
}

/// The 36 steps of subband samples of frame `k` of the input `x`: step `t` analyses the
/// window after sample `1152k + 32(t + 1)`.
pub open spec fn frame_ticks(x: Seq<i16>, en: Seq<i64>, n: Seq<i64>, k: int) -> Seq<Seq<i64>> {
    Seq::new(36, |t: int| poly(hist_view(x, 1152 * k + 32 * (t + 1)), en, n))
}

/// `Y[i]`: the eight window samples `i + 64j`, each weighted by the analysis window.
pub open spec fn y_sum(win: Seq<i16>, en: Seq<i64>, i: int, j: nat) -> int
    decreases j,
{
    if j == 0 {
        0
    } else {
        y_sum(win, en, i, (j - 1) as nat) + vstd::wrapping::i64_specs::wrapping_mul(
            win[i + 64 * (j - 1)] as i64,
            en[i + 64 * (j - 1)],
        ) as int / 0x8000
    }
}

/// `S[sb]`: the projection of the 64 values `y` onto subband `sb`.
pub open spec fn s_sum(n: Seq<i64>, y: Seq<i64>, sb: int, i: nat) -> int
    decreases i,
{
    if i == 0 {
        0
    } else {
        s_sum(n, y, sb, (i - 1) as nat) + vstd::wrapping::i64_specs::wrapping_mul(
            n[32 * (i - 1) + sb],
            y[i - 1],
        ) as int / 0x1000_0000
    }
}

proof fn lemma_sum_bounds(win: Seq<i16>, en: Seq<i64>, i: int, j: nat, n: Seq<i64>, y: Seq<i64>, sb: int)
    ensures
        -0x1_0000_0000_0000 * j <= y_sum(win, en, i, j) <= 0x1_0000_0000_0000 * j,
        -0x8_0000_0000 * j <= s_sum(n, y, sb, j) <= 0x8_0000_0000 * j,
    decreases j,
{
    if j > 0 {
        lemma_sum_bounds(win, en, i, (j - 1) as nat, n, y, sb);
        let x = vstd::wrapping::i64_specs::wrapping_mul(
            win[i + 64 * (j - 1)] as i64,
            en[i + 64 * (j - 1)],
        ) as int;
        assert(-0x1_0000_0000_0000 <= x / 0x8000 <= 0x1_0000_0000_0000) by (nonlinear_arith)
            requires
                -0x8000_0000_0000_0000 <= x < 0x8000_0000_0000_0000,
        ;
        let z = vstd::wrapping::i64_specs::wrapping_mul(n[32 * (j - 1) + sb], y[j - 1]) as int;
        assert(-0x8_0000_0000 <= z / 0x1000_0000 <= 0x8_0000_0000) by (nonlinear_arith)
            requires
                -0x8000_0000_0000_0000 <= z < 0x8000_0000_0000_0000,
        ;
    }
}

/// Putting the next 32 input samples in place of the oldest 32 moves the window on by 32.
proof fn lemma_window_shift(w0: Seq<i16>, w1: Seq<i16>, idx: int, x: Seq<i16>, n: int)
    requires
        w0.len() == 512,
        w1.len() == 512,
        0 <= idx < 512,
        idx % 32 == 0,
        window_view(w0, idx) == hist_view(x, n),
        forall|j: int| 0 <= j < 32 ==> #[trigger] w1[idx + j] == hist_at(x, n + 32, 31 - j),
        forall|k: int| 0 <= k < 512 && !(idx <= k < idx + 32) ==> #[trigger] w1[k] == w0[k],
    ensures
        window_view(w1, (idx + 32) % 512) == hist_view(x, n + 32),
{
    let idx2 = (idx + 32) % 512;
    assert forall|i: int| 0 <= i < 512 implies #[trigger] window_view(w1, idx2)[i] == hist_view(x, n + 32)[i] by {
        let pos = (idx2 + 511 - i) % 512;
        if i < 32 {
            assert(pos == idx + (31 - i)) by (nonlinear_arith)
                requires
                    idx2 == (idx + 32) % 512,
                    pos == (idx2 + 511 - i) % 512,
                    0 <= idx < 512,
                    idx % 32 == 0,
                    0 <= i < 32,
            ;
            assert(w1[idx + (31 - i)] == hist_at(x, n + 32, 31 - (31 - i)));
            assert(window_view(w1, idx2)[i] == ring_at(w1, idx2, i));
            assert(ring_at(w1, idx2, i) == w1[pos]);
        } else {
            let pos0 = (idx + 511 - (i - 32)) % 512;
            assert(pos == pos0 && !(idx <= pos0 < idx + 32) && 0 <= pos0 < 512) by (nonlinear_arith)
                requires
                    idx2 == (idx + 32) % 512,
                    pos == (idx2 + 511 - i) % 512,
                    pos0 == (idx + 511 - (i - 32)) % 512,
                    0 <= idx < 512,
                    idx % 32 == 0,
                    32 <= i < 512,
            ;
            assert(window_view(w0, idx)[i - 32] == hist_view(x, n)[i - 32]);
            assert(window_view(w0, idx)[i - 32] == w0[pos0]);
            assert(w1[pos0] == w0[pos0]);
            assert(window_view(w1, idx2)[i] == w1[pos]);
            assert(hist_view(x, n)[i - 32] == hist_view(x, n + 32)[i]);
        }
    }
    assert(window_view(w1, idx2) =~= hist_view(x, n + 32));
}

impl Window {
    closed spec fn wf(&self) -> bool {
        self.window@.len() == 512 && self.window_idx < 512 && self.window_idx % 32 == 0
    }

    fn new() -> (r: Window)
        ensures
            r.wf(),
            r.window_idx == 0,
            r.window@ == Seq::new(512, |i: int| 0i16),
    {
        let r = Window { window: vec![0i16; 512], window_idx: 0 };
        assert(r.window@ =~= Seq::new(512, |i: int| 0i16));
        r
    }

    /// Puts 32 samples in place of the oldest 32.
    fn add_samples(&mut self, samples: &Vec<i16>, from: usize)
        requires
            old(self).wf(),
            from + 32 <= samples@.len(),
        ensures
            final(self).wf(),
            final(self).window_idx == (old(self).window_idx + 32) % 512,
            forall|i: int| 0 <= i < 32 ==> #[trigger] final(self).window@[old(self).window_idx + i] == samples@[from + i],
            forall|k: int| 0 <= k < 512 && !(old(self).window_idx <= k < old(self).window_idx + 32) ==> #[trigger] final(self).window@[k] == old(self).window@[k],
    {
        let ghost w0 = self.window@;
        let len = samples.len();
        let mut i: usize = 0;
        while i < 32
            invariant
                i <= 32,
                len == samples@.len(),
                self.window@.len() == 512,
                self.window_idx < 512,
                self.window_idx % 32 == 0,
                self.window_idx == old(self).window_idx,
                from + 32 <= samples@.len(),
                forall|j: int| 0 <= j < i ==> #[trigger] self.window@[self.window_idx + j] == samples@[from + j],
                forall|k: int| 0 <= k < 512 && !(self.window_idx <= k < self.window_idx + i) ==> #[trigger] self.window@[k] == w0[k],
            decreases 32 - i,
        {
            self.window.set(self.window_idx + i, samples[from + i]);
            i = i + 1;
        }
        self.window_idx = (self.window_idx + 32) % 512;
    }

    /// The 32 subband samples of the window.
    fn polyphase(&self, en: &Vec<i64>, n: &Vec<i64>) -> (r: Vec<i64>)
        requires
            self.wf(),
            en@.len() == 512,
            n@.len() == 2048,
        ensures
            r@.len() == 32,
            forall|sb: int| 0 <= sb < 32 ==> -0x200_0000_0000 <= #[trigger] r@[sb] <= 0x200_0000_0000,
            r@ == poly(window_view(self.window@, self.window_idx as int), en@, n@),
    {
        let ghost ys = Seq::new(64, |i: int| y_sum(window_view(self.window@, self.window_idx as int), en@, i, 8) as i64);
        let mut y: Vec<i64> = Vec::new();
        let mut i: usize = 0;
        while i < 64
            invariant
                i <= 64,
                self.wf(),
                en@.len() == 512,
                y@.len() == i,
                forall|k: int| 0 <= k < i ==> #[trigger] y@[k] == ys[k],
                ys == Seq::new(64, |i: int| y_sum(window_view(self.window@, self.window_idx as int), en@, i, 8) as i64),
            decreases 64 - i,
        {
            let mut sum: i64 = 0;
            let mut j: usize = 0;
            while j < 8
                invariant
                    i < 64,
                    j <= 8,
                    self.wf(),
                    en@.len() == 512,
                    sum == y_sum(window_view(self.window@, self.window_idx as int), en@, i as int, j as nat),
                decreases 8 - j,
            {
                proof {
                    lemma_sum_bounds(window_view(self.window@, self.window_idx as int), en@, i as int, j as nat, Seq::empty(), Seq::empty(), 0);
                }
                let w = self.window[(self.window_idx + 511 - (i + 64 * j)) % 512];
                sum = sum + asr15((w as i64).wrapping_mul(en[i + 64 * j]));
                j = j + 1;
            }
            proof {
                lemma_sum_bounds(window_view(self.window@, self.window_idx as int), en@, i as int, 8, Seq::empty(), Seq::empty(), 0);
            }
            y.push(sum);
            i = i + 1;
        }
        assert(y@ =~= ys);
        let mut out: Vec<i64> = Vec::new();
        let mut sb: usize = 0;
        while sb < 32
            invariant
                sb <= 32,
                n@.len() == 2048,
                y@ == ys,
                y@.len() == 64,
                out@.len() == sb,
                forall|k: int| 0 <= k < sb ==> #[trigger] out@[k] == s_sum(n@, ys, k, 64),
                forall|k: int| 0 <= k < sb ==> -0x200_0000_0000 <= #[trigger] out@[k] <= 0x200_0000_0000,
            decreases 32 - sb,
        {
            let mut sum: i64 = 0;
            let mut i: usize = 0;
            while i < 64
                invariant
                    sb < 32,
                    i <= 64,
                    n@.len() == 2048,
                    y@.len() == 64,
                    sum == s_sum(n@, y@, sb as int, i as nat),
                decreases 64 - i,
            {
                proof {
                    lemma_sum_bounds(Seq::empty(), Seq::empty(), 0, i as nat, n@, y@, sb as int);
                }
                sum = sum + asr28(n[32 * i + sb].wrapping_mul(y[i]));
                i = i + 1;
            }
            proof {
                lemma_sum_bounds(Seq::empty(), Seq::empty(), 0, 64, n@, y@, sb as int);
            }
            out.push(sum);
            sb = sb + 1;
        }
        assert(out@ =~= poly(window_view(self.window@, self.window_idx as int), en@, n@));
        out
    }
}

/// The scalefactor chosen for a peak `m`: scanning from index 62 down, the first whose entry
/// exceeds `m`; index 0 where none before it does.
pub open spec fn scan_down(sf: Seq<i64>, m: int, k: int) -> int
    decreases k,
{
    if k <= 0 || m < sf[k] {
        if k <= 0 { 0 } else { k }
    } else {
        scan_down(sf, m, k - 1)
    }
}

pub open spec fn sf_choice(sf: Seq<i64>, m: int) -> int {
    scan_down(sf, m, 62)
}

fn choose_scalefactor(sf: &Vec<i64>, m: i64) -> (r: usize)
    requires
        sf@.len() == 63,
    ensures
        r == sf_choice(sf@, m as int),
        r < 63,
{
    let mut k: usize = 62;
    while k > 0 && !(m < sf[k])
        invariant
            k <= 62,
            sf@.len() == 63,
            scan_down(sf@, m as int, k as int) == sf_choice(sf@, m as int),
        decreases k,
    {
        k = k - 1;
    }
    k
}

/// The largest magnitude among the first `n` values.
pub open spec fn max_abs(col: Seq<i64>, n: nat) -> int
    decreases n,
{
    if n == 0 {
        0
    } else {
        let m = max_abs(col, (n - 1) as nat);
        let a = if col[n - 1] < 0 { -col[n - 1] } else { col[n - 1] as int };
        if a > m { a } else { m }
    }
}

/// Quantizer parameters of subband `sb`: `(a, b, bits per code)`.
pub open spec fn quant_params(sb: int) -> (int, int, nat) {
    if sb < 4 {
        (0x0F800000, -0x00800000, 5)
    } else if sb < 6 {
        (0x0F000000, -0x01000000, 4)
    } else if sb < 12 {
        (0x09000000, -0x07000000, 4)
    } else {
        (0x0C000000, -0x04000000, 2)
    }
}

/// Grouping of subband `sb`: `(levels, bits of the group)`, where its codes are grouped.
pub open spec fn group_params(sb: int) -> Option<(int, nat)> {
    if sb < 6 {
        None
    } else if sb < 12 {
        Some((9, 10))
    } else {
        Some((3, 5))
    }
}

/// The code sent for subband sample `x` at inverse scalefactor `isf`:
/// `scaled = (x * isf) >> 28`, `t = ((scaled * a) >> 28) + b`, then the top `bits` bits
/// of `t` with the highest flipped.
pub open spec fn quant_code(x: int, isf: int, sb: int) -> int {
    let (a, b, nb) = quant_params(sb);
    let scaled = x * isf / 0x1000_0000;
    let t = scaled * a / 0x1000_0000 + b;
    let q = t / pow2((29 - nb) as nat) as int;
    (q + pow2((nb - 1) as nat)) % pow2(nb) as int
}

fn floor_div(x: i128, m: i128) -> (r: i128)
    requires
        0 < m <= 0x100_0000_0000,
        -0x4000_0000_0000_0000_0000_0000_0000_0000 <= x <= 0x4000_0000_0000_0000_0000_0000_0000_0000,
    ensures
        r == x as int / m as int,
{
    if x >= 0 {
        x / m
    } else {
        let p = (-x + m - 1) / m;
        assert(-p == x as int / m as int) by (nonlinear_arith)
            requires
                x < 0,
                m > 0,
                p == (-x + m - 1) / (m as int),
        ;
        -p
    }
}

fn quantize(x: i64, isf: i64, sb: usize) -> (r: u32)
    requires
        sb < SUBBANDS,
    ensures
        r == quant_code(x as int, isf as int, sb as int),
{
    let (a, b, nb): (i128, i128, u32) = if sb < 4 {
        (0x0F800000, -0x00800000, 5)
    } else if sb < 6 {
        (0x0F000000, -0x01000000, 4)
    } else if sb < 12 {
        (0x09000000, -0x07000000, 4)
    } else {
        (0x0C000000, -0x04000000, 2)
    };
    proof {
        crate::bitio::lemma_pow2_mono((29 - nb) as nat, 40);
        crate::bitio::lemma_pow2_mono(nb as nat, 40);
        crate::bitio::lemma_pow2_mono(0, (29 - nb) as nat);
        crate::bitio::lemma_pow2_mono(0, (nb - 1) as nat);
        crate::bitio::lemma_pow2_mono(nb as nat, 5);
        reveal_with_fuel(pow2, 6);
        crate::bitio::lemma_pow2_40();
    }
    assert(-0x4000_0000_0000_0000_0000_0000_0000_0000 <= x as int * isf as int <= 0x4000_0000_0000_0000_0000_0000_0000_0000) by (nonlinear_arith)
        requires
            -0x8000_0000_0000_0000 <= x < 0x8000_0000_0000_0000,
            -0x8000_0000_0000_0000 <= isf < 0x8000_0000_0000_0000,
    ;
    let prod = x as i128 * isf as i128;
    let scaled = floor_div(prod, 0x1000_0000);
    assert(-0x4_0000_0000_0000_0000_0000_0000 <= scaled <= 0x4_0000_0000_0000_0000_0000_0000) by (nonlinear_arith)
        requires
            scaled == prod / 0x1000_0000,
            -0x4000_0000_0000_0000_0000_0000_0000_0000 <= prod <= 0x4000_0000_0000_0000_0000_0000_0000_0000,
    ;
    assert(-0x4000_0000_0000_0000_0000_0000_0000_0000 <= scaled * a <= 0x4000_0000_0000_0000_0000_0000_0000_0000) by (nonlinear_arith)
        requires
            -0x4_0000_0000_0000_0000_0000_0000 <= scaled <= 0x4_0000_0000_0000_0000_0000_0000,
            0 <= a <= 0x1000_0000,
    ;
    let prod2 = scaled * a;
    let t0 = floor_div(prod2, 0x1000_0000);
    assert(-0x4_0000_0000_0000_0000_0000_0000 <= t0 <= 0x4_0000_0000_0000_0000_0000_0000) by (nonlinear_arith)
        requires
            t0 == prod2 / 0x1000_0000,
            -0x4000_0000_0000_0000_0000_0000_0000_0000 <= prod2 <= 0x4000_0000_0000_0000_0000_0000_0000_0000,
    ;
    let t = t0 + b;
    let div = pow2_exec(29 - nb) as i128;
    let m = pow2_exec(nb) as i128;
    let half = pow2_exec(nb - 1) as i128;
    let q0 = floor_div(t, div);
    assert(-0x4_0000_0000_0000_0000_0000_0000 - 0x1000_0000 <= q0 <= 0x4_0000_0000_0000_0000_0000_0000 + 0x1000_0000) by (nonlinear_arith)
        requires
            q0 == t as int / (div as int),
            div >= 1,
            -0x4_0000_0000_0000_0000_0000_0000 - 0x1000_0000 <= t <= 0x4_0000_0000_0000_0000_0000_0000 + 0x1000_0000,
    ;
    let q = q0 + half;
    let big: i128 = 0x1_0000_0000_0000_0000_0000_0000_0000;
    let shifted = q + m * big;
    proof {
        vstd::arithmetic::div_mod::lemma_mod_multiples_vanish(big as int, q as int, m as int);
        assert(m * big == m as int * big as int);
    }
    let code = shifted % m;
    assert(0 <= code < m);
    code as u32
}

/// The fixed allocation schedule of the first `n` subbands.
pub open spec fn alloc_schedule(n: nat) -> Seq<u8>
    decreases n,
{
    if n == 0 {
        Seq::empty()
    } else {
        alloc_schedule((n - 1) as nat) + bits_of(encoder_alloc(n - 1) as u32, alloc_bits(n - 1))
    }
}

/// Subband `sb` of the 12 subband samples of part `p`.
pub open spec fn part_column(ticks: Seq<Seq<i64>>, p: int, sb: int) -> Seq<i64> {
    Seq::new(12, |t: int| ticks[12 * p + t][sb])
}

/// The scalefactor of subband `sb` in part `p` of a frame of subband samples `ticks`.
pub open spec fn frame_sf(sf: Seq<i64>, ticks: Seq<Seq<i64>>, p: int, sb: int) -> int {
    sf_choice(sf, max_abs(part_column(ticks, p, sb), 12))
}

/// The classification of subband `sb`'s three scalefactors.
pub open spec fn frame_scfsi(sf: Seq<i64>, ticks: Seq<Seq<i64>>, sb: int) -> int {
    classify(frame_sf(sf, ticks, 0, sb), frame_sf(sf, ticks, 1, sb), frame_sf(sf, ticks, 2, sb))
}

/// The classifications of the first `n` subbands, two bits each.
pub open spec fn scfsi_bits(sf: Seq<i64>, ticks: Seq<Seq<i64>>, n: nat) -> Seq<u8>
    decreases n,
{
    if n == 0 {
        Seq::empty()
    } else {
        scfsi_bits(sf, ticks, (n - 1) as nat) + bits_of(frame_scfsi(sf, ticks, n - 1) as u32, 2)
    }
}

/// The first `n` values, six bits each.
pub open spec fn six_bit_values(v: Seq<int>, n: nat) -> Seq<u8>
    decreases n,
{
    if n == 0 {
        Seq::empty()
    } else {
        six_bit_values(v, (n - 1) as nat) + bits_of(v[n - 1] as u32, 6)
    }
}

/// The scalefactors sent for subband `sb`.
pub open spec fn frame_payload(sf: Seq<i64>, ticks: Seq<Seq<i64>>, sb: int) -> Seq<int> {
    sf_payload(
        frame_scfsi(sf, ticks, sb),
        frame_sf(sf, ticks, 0, sb),
        frame_sf(sf, ticks, 1, sb),
        frame_sf(sf, ticks, 2, sb),
    )
}

/// The scalefactors sent for the first `n` subbands.
pub open spec fn payload_bits(sf: Seq<i64>, ticks: Seq<Seq<i64>>, n: nat) -> Seq<u8>
    decreases n,
{
    if n == 0 {
        Seq::empty()
    } else {
        let p = frame_payload(sf, ticks, n - 1);
        payload_bits(sf, ticks, (n - 1) as nat) + six_bit_values(p, p.len())
    }
}

/// The code of sample `s` of granule `g` of part `p` in subband `sb`.
pub open spec fn frame_code(sf: Seq<i64>, isf: Seq<i64>, ticks: Seq<Seq<i64>>, p: int, g: int, s: int, sb: int) -> int {
    quant_code(ticks[12 * p + 3 * g + s][sb] as int, isf[frame_sf(sf, ticks, p, sb)] as int, sb)
}

/// The bits of unit `u` of the sample data: part `u / 120`, granule `u / 30 % 4`, subband
/// `u % 30`; three codes, grouped where the subband groups them.
pub open spec fn unit_bits(sf: Seq<i64>, isf: Seq<i64>, ticks: Seq<Seq<i64>>, u: int) -> Seq<u8> {
    let p = u / 120;
    let g = u / 30 % 4;
    let sb = u % 30;
    let c0 = frame_code(sf, isf, ticks, p, g, 0, sb);
    let c1 = frame_code(sf, isf, ticks, p, g, 1, sb);
    let c2 = frame_code(sf, isf, ticks, p, g, 2, sb);
    match group_params(sb) {
        Some((nl, gb)) => bits_of((c0 + c1 * nl + c2 * nl * nl) as u32, gb),
        None => {
            let nb = quant_params(sb).2;
            bits_of(c0 as u32, nb) + bits_of(c1 as u32, nb) + bits_of(c2 as u32, nb)
        },
    }
}

/// The sample data of the first `n` units.
pub open spec fn sample_bits(sf: Seq<i64>, isf: Seq<i64>, ticks: Seq<Seq<i64>>, n: nat) -> Seq<u8>
    decreases n,
{
    if n == 0 {
        Seq::empty()
    } else {
        sample_bits(sf, isf, ticks, (n - 1) as nat) + unit_bits(sf, isf, ticks, n - 1)
    }
}

/// The bits of one frame of the subband samples `ticks` (36 ticks of 32 subbands).
pub open spec fn frame_bits(sf: Seq<i64>, isf: Seq<i64>, ticks: Seq<Seq<i64>>) -> Seq<u8> {
    bits_of(FRAME_SYNC, 32) + alloc_schedule(30) + scfsi_bits(sf, ticks, 30) + payload_bits(
        sf,
        ticks,
        30,
    ) + sample_bits(sf, isf, ticks, 360)
}

fn abs_max_of_part(ticks: &Vec<Vec<i64>>, p: usize, sb: usize) -> (r: i64)
    requires
        p < 3,
        sb < 32,
        ticks@.len() == 36,
        forall|t: int| 0 <= t < 36 ==> (#[trigger] ticks@[t])@.len() == 32,
        forall|t: int, b: int| 0 <= t < 36 && 0 <= b < 32 ==> -0x100_0000_0000_0000 <= #[trigger] ticks@[t]@[b] <= 0x100_0000_0000_0000,
    ensures
        r == max_abs(part_column(views(ticks@), p as int, sb as int), 12),
{
    let ghost col = part_column(views(ticks@), p as int, sb as int);
    let mut m: i64 = 0;
    let mut t: usize = 0;
    while t < 12
        invariant
            t <= 12,
            p < 3,
            sb < 32,
            ticks@.len() == 36,
            forall|t: int| 0 <= t < 36 ==> (#[trigger] ticks@[t])@.len() == 32,
            forall|t: int, b: int| 0 <= t < 36 && 0 <= b < 32 ==> -0x100_0000_0000_0000 <= #[trigger] ticks@[t]@[b] <= 0x100_0000_0000_0000,
            col == part_column(views(ticks@), p as int, sb as int),
            m == max_abs(col, t as nat),
            0 <= m <= 0x100_0000_0000_0000,
        decreases 12 - t,
    {
        let x = ticks[12 * p + t][sb];
        assert(col[t as int] == x);
        let a = if x < 0 {
            -x
        } else {
            x
        };
        if a > m {
            m = a;
        }
        t = t + 1;
    }
    m
}

/// The subband samples as sequences.
pub open spec fn views(ticks: Seq<Vec<i64>>) -> Seq<Seq<i64>> {
    Seq::new(ticks.len(), |t: int| ticks[t]@)
}

fn encoder_alloc_exec(sb: usize) -> (r: u32)
    ensures
        r == encoder_alloc(sb as int),
{
    if sb < 4 {
        6
    } else if sb < 6 {
        4
    } else if sb < 12 {
        3
    } else {
        1
    }
}

fn classify_exec(a: usize, b: usize, c: usize) -> (r: u32)
    ensures
        r == classify(a as int, b as int, c as int),
{
    if a == b {
        if b == c {
            2
        } else {
            1
        }
    } else {
        if b == c {
            3
        } else {
            0
        }
    }
}

/// Whether `ticks` holds 36 ticks of 32 subband samples, within the range that the analysis
/// filter yields.
pub open spec fn ticks_ok(ticks: Seq<Vec<i64>>) -> bool {
    &&& ticks.len() == 36
    &&& forall|t: int| 0 <= t < 36 ==> (#[trigger] ticks[t])@.len() == 32
    &&& forall|t: int, b: int| 0 <= t < 36 && 0 <= b < 32 ==> -0x100_0000_0000_0000 <= #[trigger] ticks[t]@[b] <= 0x100_0000_0000_0000
}

/// Writes one frame of the subband samples `ticks`.
fn write_frame(w: &mut BitWriter, ticks: &Vec<Vec<i64>>, sf: &Vec<i64>, isf: &Vec<i64>)
    requires
        ticks_ok(ticks@),
        sf@.len() == 63,
        isf@.len() == 63,
    ensures
        final(w).written() == old(w).written() + frame_bits(sf@, isf@, views(ticks@)),
        all_bits(old(w).written()) ==> all_bits(final(w).written()),
{
    let ghost tv = views(ticks@);
    let ghost base = w.written();
    w.write(FRAME_SYNC, 32);
    let ghost b1 = w.written();
    let mut sb: usize = 0;
    while sb < SUBBANDS
        invariant
            sb <= SUBBANDS,
            w.written() == b1 + alloc_schedule(sb as nat),
            all_bits(base) ==> all_bits(w.written()),
        decreases SUBBANDS - sb,
    {
        w.write(encoder_alloc_exec(sb), alloc_bits_exec(sb));
        proof {
            assert(b1 + alloc_schedule((sb + 1) as nat) =~= b1 + alloc_schedule(sb as nat) + bits_of(encoder_alloc(sb as int) as u32, alloc_bits(sb as int)));
        }
        sb = sb + 1;
    }
    let ghost keep = w.written();
    let mut sfs: Vec<usize> = Vec::new();
    let mut k: usize = 0;
    while k < 90
        invariant
            k <= 90,
            ticks_ok(ticks@),
            tv == views(ticks@),
            sf@.len() == 63,
            sfs@.len() == k,
            forall|j: int| 0 <= j < k ==> #[trigger] sfs@[j] == frame_sf(sf@, tv, j / 30, j % 30),
            forall|j: int| 0 <= j < k ==> #[trigger] sfs@[j] < 63,
        decreases 90 - k,
    {
        let m = abs_max_of_part(ticks, k / 30, k % 30);
        sfs.push(choose_scalefactor(sf, m));
        k = k + 1;
    }
    let ghost b2 = w.written();
    let mut sb: usize = 0;
    while sb < SUBBANDS
        invariant
            sb <= SUBBANDS,
            sfs@.len() == 90,
            forall|j: int| 0 <= j < 90 ==> #[trigger] sfs@[j] == frame_sf(sf@, tv, j / 30, j % 30),
            w.written() == b2 + scfsi_bits(sf@, tv, sb as nat),
            all_bits(base) ==> all_bits(w.written()),
        decreases SUBBANDS - sb,
    {
        assert(sfs@[sb as int] == frame_sf(sf@, tv, 0, sb as int));
        assert(sfs@[30 + sb] == frame_sf(sf@, tv, 1, sb as int));
        assert(sfs@[60 + sb] == frame_sf(sf@, tv, 2, sb as int));
        let c = classify_exec(sfs[sb], sfs[30 + sb], sfs[60 + sb]);
        w.write(c, 2);
        proof {
            assert(b2 + scfsi_bits(sf@, tv, (sb + 1) as nat) =~= b2 + scfsi_bits(sf@, tv, sb as nat) + bits_of(c, 2));
        }
        sb = sb + 1;
    }
    let ghost b3 = w.written();
    let mut sb: usize = 0;
    while sb < SUBBANDS
        invariant
            sb <= SUBBANDS,
            sfs@.len() == 90,
            forall|j: int| 0 <= j < 90 ==> #[trigger] sfs@[j] == frame_sf(sf@, tv, j / 30, j % 30),
            forall|j: int| 0 <= j < 90 ==> #[trigger] sfs@[j] < 63,
            w.written() == b3 + payload_bits(sf@, tv, sb as nat),
            all_bits(base) ==> all_bits(w.written()),
        decreases SUBBANDS - sb,
    {
        let a = sfs[sb];
        let b = sfs[30 + sb];
        let c = sfs[60 + sb];
        assert(a == frame_sf(sf@, tv, 0, sb as int));
        assert(b == frame_sf(sf@, tv, 1, sb as int));
        assert(c == frame_sf(sf@, tv, 2, sb as int));
        let scfsi = classify_exec(a, b, c);
        let ghost pl = frame_payload(sf@, tv, sb as int);
        let ghost before = w.written();
        proof {
            reveal_with_fuel(six_bit_values, 4);
        }
        w.write(a as u32, 6);
        if scfsi == 0 {
            w.write(b as u32, 6);
            w.write(c as u32, 6);
            assert(pl =~= seq![a as int, b as int, c as int]);
            assert(w.written() =~= before + six_bit_values(pl, 3));
        } else if scfsi == 2 {
            assert(w.written() =~= before + six_bit_values(pl, 1));
        } else {
            w.write(c as u32, 6);
            assert(pl =~= seq![a as int, c as int]);
            assert(w.written() =~= before + six_bit_values(pl, 2));
        }
        proof {
            assert(b3 + payload_bits(sf@, tv, (sb + 1) as nat) =~= b3 + payload_bits(sf@, tv, sb as nat) + six_bit_values(pl, pl.len()));
        }
        sb = sb + 1;
    }
    let ghost b4 = w.written();
    let mut u: usize = 0;
    while u < 360
        invariant
            u <= 360,
            ticks_ok(ticks@),
            tv == views(ticks@),
            isf@.len() == 63,
            sfs@.len() == 90,
            forall|j: int| 0 <= j < 90 ==> #[trigger] sfs@[j] == frame_sf(sf@, tv, j / 30, j % 30),
            forall|j: int| 0 <= j < 90 ==> #[trigger] sfs@[j] < 63,
            w.written() == b4 + sample_bits(sf@, isf@, tv, u as nat),
            all_bits(base) ==> all_bits(w.written()),
        decreases 360 - u,
    {
        let p = u / 120;
        let g = u / 30 % 4;
        let sb = u % 30;
        let j = p * 30 + sb;
        assert(j / 30 == p && j % 30 == sb);
        let inv = isf[sfs[j]];
        let t0 = 12 * p + 3 * g;
        assert(t0 + 2 < 36);
        let c0 = quantize(ticks[t0][sb], inv, sb);
        let c1 = quantize(ticks[t0 + 1][sb], inv, sb);
        let c2 = quantize(ticks[t0 + 2][sb], inv, sb);
        assert(c0 == frame_code(sf@, isf@, tv, p as int, g as int, 0, sb as int));
        assert(c1 == frame_code(sf@, isf@, tv, p as int, g as int, 1, sb as int));
        assert(c2 == frame_code(sf@, isf@, tv, p as int, g as int, 2, sb as int));
        let ghost before = w.written();
        if sb < 6 {
            let nb: u32 = if sb < 4 {
                5
            } else {
                4
            };
            w.write(c0, nb);
            w.write(c1, nb);
            w.write(c2, nb);
            assert(w.written() =~= before + unit_bits(sf@, isf@, tv, u as int));
        } else {
            let (nl, gb): (u32, u32) = if sb < 12 {
                (9, 10)
            } else {
                (3, 5)
            };
            proof {
                crate::bitio::lemma_pow2_mono(2, 5);
                reveal_with_fuel(pow2, 6);
            }
            assert(c0 < 32 && c1 < 32 && c2 < 32);
            assert(c0 + c1 * nl + c2 * nl * nl <= 31 + 31 * 9 + 31 * 81) by (nonlinear_arith)
                requires
                    c0 < 32,
                    c1 < 32,
                    c2 < 32,
                    nl <= 9,
            ;
            let grouped = c0 + c1 * nl + c2 * nl * nl;
            w.write(grouped, gb);
            assert(w.written() =~= before + unit_bits(sf@, isf@, tv, u as int));
        }
        proof {
            assert(b4 + sample_bits(sf@, isf@, tv, (u + 1) as nat) =~= b4 + sample_bits(sf@, isf@, tv, u as nat) + unit_bits(sf@, isf@, tv, u as int));
        }
        u = u + 1;
    }
    assert(w.written() =~= base + frame_bits(sf@, isf@, tv));
}

/// The bits of the frames `fr`, each starting on a byte boundary.
pub open spec fn frames_bits(sf: Seq<i64>, isf: Seq<i64>, fr: Seq<Seq<Seq<i64>>>) -> Seq<u8>
    decreases fr.len(),
{
    if fr.len() == 0 {
        Seq::empty()
    } else {
        padded(frames_bits(sf, isf, fr.drop_last())) + frame_bits(sf, isf, fr.last())
    }
}

/// The header of an AHX file of `total` samples.
pub open spec fn ahx_header(total: int) -> AdxHeader {
    AdxHeader {
        encoding: AdxEncoding::Ahx,
        block_size: 0,
        sample_bitdepth: 0,
        channel_count: 1,
        sample_rate: AHX_SAMPLE_RATE,
        total_samples: total as u32,
        highpass_frequency: 0,
        version: AdxVersion::Version6,
        flags: 0,
    }
}

/// What follows the last frame: the end sentinel, `0x0c`, `AHXE`, `(c)CRI` and two zeros.
pub open spec fn ahx_trailer() -> Seq<u8> {
    seq![0x00u8, 0x80, 0x01, 0x00, 0x0c, 0x41, 0x48, 0x58, 0x45, 0x28, 0x63, 0x29, 0x43, 0x52, 0x49, 0x00, 0x00]
}

/// The frames of the input `x`: one for every 1152 samples begun, the last padded with zero
/// samples.
pub open spec fn ahx_frames(x: Seq<i16>) -> Seq<Seq<Seq<i64>>> {
    Seq::new(
        ((x.len() + FRAME_SAMPLES - 1) / (FRAME_SAMPLES as int)) as nat,
        |k: int| frame_ticks(x, analysis_window_table(), cosine_table(), k),
    )
}

/// The AHX file of the input `x`: header, frames (each from a byte boundary), trailer.
pub open spec fn ahx_file(x: Seq<i16>) -> Seq<u8> {
    header_bytes(ahx_header(x.len() as int), AHX_HEADER_SIZE as int) + pack(
        frames_bits(sf_table(), isf_table(), ahx_frames(x)),
    ) + ahx_trailer()
}

/// The window depends only on the samples before it.
proof fn lemma_hist_stable(x: Seq<i16>, y: Seq<i16>, n: int, m: int)
    requires
        0 <= m <= n,
        n <= x.len(),
        n <= y.len(),
        x.take(n) == y.take(n),
    ensures
        hist_view(x, m) == hist_view(y, m),
{
    assert forall|i: int| 0 <= i < 512 implies #[trigger] hist_view(x, m)[i] == hist_view(y, m)[i] by {
        let k = m - 1 - i;
        if 0 <= k {
            assert(k < n);
            assert(x.take(n)[k] == x[k]);
            assert(y.take(n)[k] == y[k]);
        }
    }
    assert(hist_view(x, m) =~= hist_view(y, m));
}

/// A frame depends only on the samples up to its end.
proof fn lemma_frame_stable(x: Seq<i16>, y: Seq<i16>, en: Seq<i64>, n: Seq<i64>, k: int, len: int)
    requires
        0 <= k,
        FRAME_SAMPLES * (k + 1) <= len,
        len <= x.len(),
        len <= y.len(),
        x.take(len) == y.take(len),
    ensures
        frame_ticks(x, en, n, k) == frame_ticks(y, en, n, k),
{
    assert forall|t: int| 0 <= t < 36 implies #[trigger] frame_ticks(x, en, n, k)[t] == frame_ticks(y, en, n, k)[t] by {
        lemma_hist_stable(x, y, len, 1152 * k + 32 * (t + 1));
    }
    assert(frame_ticks(x, en, n, k) =~= frame_ticks(y, en, n, k));
}

/// An encoder of AHX: it gathers 1152 samples at a time and codes each full frame.
pub struct AhxEncoder {
    inner: BitWriter,
    window: Window,
    samples_encoded: u32,
    buffer: Vec<i16>,
    buffer_idx: usize,
    en: Vec<i64>,
    n: Vec<i64>,
    sf: Vec<i64>,
    isf: Vec<i64>,
    frames: Ghost<Seq<Seq<Seq<i64>>>>,
    input: Ghost<Seq<i16>>,
}

impl AhxEncoder {
    /// The subband samples of each frame coded so far.
    pub closed spec fn frames(&self) -> Seq<Seq<Seq<i64>>> {
        self.frames@
    }

    /// Every sample taken so far.
    pub closed spec fn input(&self) -> Seq<i16> {
        self.input@
    }

    /// The number of samples taken.
    pub closed spec fn count(&self) -> nat {
        self.samples_encoded as nat
    }

    pub closed spec fn wf(&self) -> bool {
        let nf = self.frames@.len();
        &&& self.window.wf()
        &&& self.buffer@.len() == FRAME_SAMPLES
        &&& self.buffer_idx < FRAME_SAMPLES
        &&& self.en@ == analysis_window_table()
        &&& self.n@ == cosine_table()
        &&& self.sf@ == sf_table()
        &&& self.isf@ == isf_table()
        &&& self.en@.len() == 512
        &&& self.n@.len() == 2048
        &&& self.sf@.len() == 63
        &&& self.isf@.len() == 63
        &&& all_bits(self.inner.written())
        &&& self.inner.written() == frames_bits(self.sf@, self.isf@, self.frames@)
        &&& self.samples_encoded == nf * FRAME_SAMPLES + self.buffer_idx
        &&& self.input@.len() == self.samples_encoded
        &&& self.frames@ == Seq::new(nf, |k: int| frame_ticks(self.input@, self.en@, self.n@, k))
        &&& window_view(self.window.window@, self.window.window_idx as int) == hist_view(self.input@, nf * FRAME_SAMPLES)
        &&& forall|j: int| 0 <= j < self.buffer_idx ==> #[trigger] self.buffer@[j] == self.input@[nf * FRAME_SAMPLES + j]
    }

    pub fn new() -> (r: AhxEncoder)
        ensures
            r.wf(),
            r.count() == 0,
            r.input() == Seq::<i16>::empty(),
    {
        let window = Window::new();
        let r = AhxEncoder {
            inner: BitWriter::new(),
            window,
            samples_encoded: 0,
            buffer: vec![0i16; FRAME_SAMPLES],
            buffer_idx: 0,
            en: analysis_window(),
            n: cosine_matrix(),
            sf: scalefactors(),
            isf: inverse_scalefactors(),
            frames: Ghost(Seq::empty()),
            input: Ghost(Seq::empty()),
        };
        assert(all_bits(r.inner.written()));
        assert(r.frames@ =~= Seq::new(0, |k: int| frame_ticks(r.input@, r.en@, r.n@, k)));
        assert(window_view(r.window.window@, 0) =~= hist_view(Seq::<i16>::empty(), 0));
        r
    }

    /// Runs the analysis over the buffered frame: 36 steps of 32 samples each.
    fn analyze(&mut self, Ghost(x): Ghost<Seq<i16>>, Ghost(n0): Ghost<int>) -> (r: Vec<Vec<i64>>)
        requires
            old(self).window.wf(),
            old(self).buffer@.len() == FRAME_SAMPLES,
            old(self).en@.len() == 512,
            old(self).n@.len() == 2048,
            window_view(old(self).window.window@, old(self).window.window_idx as int) == hist_view(x, n0),
            forall|j: int| 0 <= j < FRAME_SAMPLES ==> #[trigger] old(self).buffer@[j] == hist_at(x, n0 + j + 1, 0),
        ensures
            final(self).window.wf(),
            ticks_ok(r@),
            views(r@) == Seq::new(36, |t: int| poly(hist_view(x, n0 + 32 * (t + 1)), old(self).en@, old(self).n@)),
            window_view(final(self).window.window@, final(self).window.window_idx as int) == hist_view(x, n0 + FRAME_SAMPLES),
            final(self).buffer == old(self).buffer,
            final(self).buffer_idx == old(self).buffer_idx,
            final(self).samples_encoded == old(self).samples_encoded,
            final(self).inner == old(self).inner,
            final(self).en == old(self).en,
            final(self).n == old(self).n,
            final(self).sf == old(self).sf,
            final(self).isf == old(self).isf,
            final(self).frames == old(self).frames,
            final(self).input == old(self).input,
    {
        let ghost target = Seq::new(36, |t: int| poly(hist_view(x, n0 + 32 * (t + 1)), self.en@, self.n@));
        let mut ticks: Vec<Vec<i64>> = Vec::new();
        let mut t: usize = 0;
        while t < 36
            invariant
                t <= 36,
                self.window.wf(),
                self.buffer@.len() == FRAME_SAMPLES,
                self.en@.len() == 512,
                self.n@.len() == 2048,
                self.buffer == old(self).buffer,
                self.buffer_idx == old(self).buffer_idx,
                self.samples_encoded == old(self).samples_encoded,
                self.inner == old(self).inner,
                self.en == old(self).en,
                self.n == old(self).n,
                self.sf == old(self).sf,
                self.isf == old(self).isf,
                self.frames == old(self).frames,
                self.input == old(self).input,
                target == Seq::new(36, |t: int| poly(hist_view(x, n0 + 32 * (t + 1)), self.en@, self.n@)),
                forall|j: int| 0 <= j < FRAME_SAMPLES ==> #[trigger] self.buffer@[j] == hist_at(x, n0 + j + 1, 0),
                window_view(self.window.window@, self.window.window_idx as int) == hist_view(x, n0 + 32 * t),
                ticks@.len() == t,
                forall|k: int| 0 <= k < t ==> (#[trigger] ticks@[k])@ == target[k],
                forall|k: int| 0 <= k < t ==> (#[trigger] ticks@[k])@.len() == 32,
                forall|k: int, b: int| 0 <= k < t && 0 <= b < 32 ==> -0x100_0000_0000_0000 <= #[trigger] ticks@[k]@[b] <= 0x100_0000_0000_0000,
            decreases 36 - t,
        {
            let ghost w0 = self.window.window@;
            let ghost idx = self.window.window_idx as int;
            self.window.add_samples(&self.buffer, 32 * t);
            proof {
                assert forall|j: int| 0 <= j < 32 implies #[trigger] self.window.window@[idx + j] == hist_at(x, n0 + 32 * t + 32, 31 - j) by {
                    assert(self.buffer@[32 * t + j] == hist_at(x, n0 + (32 * t + j) + 1, 0));
                }
                lemma_window_shift(w0, self.window.window@, idx, x, n0 + 32 * t);
                assert(n0 + 32 * t + 32 == n0 + 32 * (t + 1));
            }
            let column = self.window.polyphase(&self.en, &self.n);
            ticks.push(column);
            t = t + 1;
        }
        assert(views(ticks@) =~= target);
        ticks
    }

    /// Codes the buffered frame.
    fn encode_frame(&mut self, Ghost(x): Ghost<Seq<i16>>, Ghost(n0): Ghost<int>)
        requires
            old(self).window.wf(),
            old(self).buffer@.len() == FRAME_SAMPLES,
            old(self).en@.len() == 512,
            old(self).n@.len() == 2048,
            old(self).sf@.len() == 63,
            old(self).isf@.len() == 63,
            all_bits(old(self).inner.written()),
            old(self).inner.written() == frames_bits(old(self).sf@, old(self).isf@, old(self).frames@),
            window_view(old(self).window.window@, old(self).window.window_idx as int) == hist_view(x, n0),
            forall|j: int| 0 <= j < FRAME_SAMPLES ==> #[trigger] old(self).buffer@[j] == hist_at(x, n0 + j + 1, 0),
        ensures
            final(self).window.wf(),
            window_view(final(self).window.window@, final(self).window.window_idx as int) == hist_view(x, n0 + FRAME_SAMPLES),
            final(self).buffer == old(self).buffer,
            final(self).buffer_idx == old(self).buffer_idx,
            final(self).samples_encoded == old(self).samples_encoded,
            final(self).sf == old(self).sf,
            final(self).isf == old(self).isf,
            final(self).en == old(self).en,
            final(self).n == old(self).n,
            final(self).input == old(self).input,
            final(self).frames@ == old(self).frames@.push(
                Seq::new(36, |t: int| poly(hist_view(x, n0 + 32 * (t + 1)), old(self).en@, old(self).n@)),
            ),
            all_bits(final(self).inner.written()),
            final(self).inner.written() == frames_bits(final(self).sf@, final(self).isf@, final(self).frames@),
    {
        let ticks = self.analyze(Ghost(x), Ghost(n0));
        self.inner.reset();
        write_frame(&mut self.inner, &ticks, &self.sf, &self.isf);
        let ghost fr = self.frames@.push(views(ticks@));
        proof {
            assert(fr.drop_last() =~= self.frames@);
        }
        self.frames = Ghost(fr);
    }

    /// Takes more samples; every 1152 make a frame.
    pub fn encode_data(&mut self, samples: Vec<i16>)
        requires
            old(self).wf(),
            old(self).count() + samples@.len() <= u32::MAX,
        ensures
            final(self).wf(),
            final(self).count() == old(self).count() + samples@.len(),
            final(self).input() == old(self).input() + samples@,
    {
        let mut i: usize = 0;
        while i < samples.len()
            invariant
                self.wf(),
                i <= samples@.len(),
                self.count() == old(self).count() + i,
                self.input@ == old(self).input@ + samples@.take(i as int),
                old(self).count() + samples@.len() <= u32::MAX,
            decreases samples@.len() - i,
        {
            let ghost x0 = self.input@;
            let ghost nf = self.frames@.len();
            let ghost x1 = x0.push(samples@[i as int]);
            let v = samples[i];
            self.buffer.set(self.buffer_idx, v);
            self.buffer_idx = self.buffer_idx + 1;
            self.input = Ghost(x1);
            proof {
                assert(x1.take(x0.len() as int) =~= x0.take(x0.len() as int));
                assert forall|k: int| 0 <= k < nf implies #[trigger] frame_ticks(x1, self.en@, self.n@, k) == frame_ticks(x0, self.en@, self.n@, k) by {
                    assert(FRAME_SAMPLES * (k + 1) <= nf * FRAME_SAMPLES) by (nonlinear_arith)
                        requires
                            k < nf,
                    ;
                    lemma_frame_stable(x1, x0, self.en@, self.n@, k, x0.len() as int);
                }
                assert(self.frames@ =~= Seq::new(nf, |k: int| frame_ticks(x1, self.en@, self.n@, k)));
                lemma_hist_stable(x1, x0, x0.len() as int, nf * FRAME_SAMPLES);
            }
            if self.buffer_idx == FRAME_SAMPLES {
                proof {
                    assert forall|j: int| 0 <= j < FRAME_SAMPLES implies #[trigger] self.buffer@[j] == hist_at(x1, nf * FRAME_SAMPLES + j + 1, 0) by {}
                }
                self.encode_frame(Ghost(x1), Ghost(nf * FRAME_SAMPLES));
                self.buffer_idx = 0;
                proof {
                    assert(self.frames@ =~= Seq::new(nf + 1, |k: int| frame_ticks(x1, self.en@, self.n@, k)));
                    assert(nf * FRAME_SAMPLES + FRAME_SAMPLES == (nf + 1) * FRAME_SAMPLES);
                }
            }
            self.samples_encoded = self.samples_encoded + 1;
            i = i + 1;
            proof {
                assert(samples@.take(i as int) =~= samples@.take(i - 1).push(samples@[i - 1]));
            }
        }
        assert(samples@.take(samples@.len() as int) =~= samples@);
    }

    /// Codes what is buffered, padded with zero samples, as a last frame; then hands back the
    /// whole file: header, frames (each from a byte boundary), trailer. A frame is coded for
    /// every 1152 samples begun; frame `k` holds samples `1152k` onward.
    pub fn finalize(self) -> (r: Vec<u8>)
        requires
            self.wf(),
        ensures
            r@ == ahx_file(self.input()),
    {
        let ghost x = self.input@;
        let ghost count = self.count();
        let ghost fr0 = self.frames@;
        let total = self.samples_encoded;
        let mut this = self;
        if this.buffer_idx != 0 {
            let mut k: usize = this.buffer_idx;
            while k < FRAME_SAMPLES
                invariant
                    this.buffer_idx <= k <= FRAME_SAMPLES,
                    this.wf(),
                    this.frames@ == fr0,
                    this.input@ == x,
                    forall|j: int| this.buffer_idx <= j < k ==> #[trigger] this.buffer@[j] == 0,
                decreases FRAME_SAMPLES - k,
            {
                this.buffer.set(k, 0);
                k = k + 1;
            }
            let ghost n0 = fr0.len() * FRAME_SAMPLES;
            proof {
                assert forall|j: int| 0 <= j < FRAME_SAMPLES implies #[trigger] this.buffer@[j] == hist_at(x, n0 + j + 1, 0) by {
                    if j >= this.buffer_idx {
                        assert(this.buffer@[j] == 0);
                    }
                }
            }
            this.encode_frame(Ghost(x), Ghost(n0));
            proof {
                assert((count + FRAME_SAMPLES - 1) / (FRAME_SAMPLES as int) == fr0.len() + 1) by (nonlinear_arith)
                    requires
                        count == fr0.len() * FRAME_SAMPLES + this.buffer_idx,
                        0 < this.buffer_idx < FRAME_SAMPLES,
                ;
                assert(this.frames@ =~= ahx_frames(x));
            }
        } else {
            proof {
                assert((count + FRAME_SAMPLES - 1) / (FRAME_SAMPLES as int) == fr0.len()) by (nonlinear_arith)
                    requires
                        count == fr0.len() * FRAME_SAMPLES,
                ;
                assert(this.frames@ =~= ahx_frames(x));
            }
        }
        let ghost fr = this.frames@;
        let body = this.inner.inner();
        let out = assemble(total, body);
        out
    }
}

/// The file: the header for `total` samples, the frames' bytes, the trailer.
fn assemble(total: u32, body: Vec<u8>) -> (r: Vec<u8>)
    ensures
        r@ == header_bytes(ahx_header(total as int), AHX_HEADER_SIZE as int) + body@ + ahx_trailer(),
{
    let mut body = body;
    let ghost b = body@;
    let header = AdxHeader {
        encoding: AdxEncoding::Ahx,
        block_size: 0,
        sample_bitdepth: 0,
        channel_count: 1,
        sample_rate: AHX_SAMPLE_RATE,
        total_samples: total,
        highpass_frequency: 0,
        version: AdxVersion::Version6,
        flags: 0,
    };
    let mut out: Vec<u8> = Vec::new();
    header.to_writer(&mut out, AHX_HEADER_SIZE);
    out.append(&mut body);
    let ghost mid = out@;
    let trailer: [u8; 17] = [0x00, 0x80, 0x01, 0x00, 0x0c, 0x41, 0x48, 0x58, 0x45, 0x28, 0x63, 0x29, 0x43, 0x52, 0x49, 0x00, 0x00];
    let mut k: usize = 0;
    while k < 17
        invariant
            k <= 17,
            out@ =~= mid + trailer@.take(k as int),
        decreases 17 - k,
    {
        out.push(trailer[k]);
        k = k + 1;
    }
    assert(trailer@ =~= ahx_trailer());
    assert(out@ =~= header_bytes(ahx_header(total as int), AHX_HEADER_SIZE as int) + b + ahx_trailer());
    out
}

} // verus!
