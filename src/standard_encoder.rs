use vstd::prelude::*;

use crate::adpcm::{
    coeffs_ok, decode_run, decode_sample, history, lemma_history_push, prediction_fp, Coeffs,
};
use crate::adx_header::{header_bytes, AdxEncoding, AdxHeader, AdxVersion, AdxVersion3LoopInfo, ADX_HEADER_LEN};
use crate::byte_io::{u16_be, write_u16};
use crate::{AdxSpec, LoopInfo, Sample};
use crate::fixed::{asr12, clamp16, clamp_i16};

verus! {

/// Samples per block.
pub const BLOCK_SAMPLES: usize = 32;

/// Bytes per block: a 16-bit scale and 32 four-bit residuals.
pub const BLOCK_BYTES: usize = 18;

/// The residual that sizes a block: `((s << 12) - k1 * p1 - k2 * p2) >> 12`.
pub open spec fn residual(k: Coeffs, p1: i16, p2: i16, s: i16) -> int {
    (s * 0x1000 - k.0 * p1 - k.1 * p2) / 0x1000
}

/// The residual of sample `i` of `s` against the history of the input samples before it.
pub open spec fn est_residual(k: Coeffs, p1: i16, p2: i16, s: Seq<i16>, i: int) -> int {
    let h = history(p1, p2, s.take(i));
    residual(k, h.0, h.1, s[i])
}

/// The least of 0 and the first `n` estimated residuals.
pub open spec fn res_min(k: Coeffs, p1: i16, p2: i16, s: Seq<i16>, n: nat) -> int
    decreases n,
{
    if n == 0 {
        0
    } else {
        let m = res_min(k, p1, p2, s, (n - 1) as nat);
        let d = est_residual(k, p1, p2, s, n - 1);
        if d < m {
            d
        } else {
            m
        }
    }
}

/// The greatest of 0 and the first `n` estimated residuals.
pub open spec fn res_max(k: Coeffs, p1: i16, p2: i16, s: Seq<i16>, n: nat) -> int
    decreases n,
{
    if n == 0 {
        0
    } else {
        let m = res_max(k, p1, p2, s, (n - 1) as nat);
        let d = est_residual(k, p1, p2, s, n - 1);
        if d > m {
            d
        } else {
            m
        }
    }
}

/// The scale of a block whose residuals lie in `[mn, mx]`: `max(ceil(mx / 7), ceil(mn / -8))`,
/// or 1 where that is 0.
pub open spec fn block_scale(mn: int, mx: int) -> int {
    let a = (mx + 6) / 7;
    let b = (-mn + 7) / 8;
    let c = if a > b {
        a
    } else {
        b
    };
    if c == 0 {
        1
    } else {
        c
    }
}

/// `delta / scale` rounded to nearest, halves away from zero, then clipped to `[-8, 7]`.
pub open spec fn quantize(delta: int, scale: int) -> int {
    let h = scale / 2;
    let u = if delta > 0 {
        (delta + h) / scale
    } else {
        -((-delta + h) / scale)
    };
    if u >= 7 {
        7
    } else if u <= -8 {
        -8
    } else {
        u
    }
}

/// The sample that the encoder expects the decoder to rebuild:
/// `((nibble << 12) * scale + k1 * p1 + k2 * p2) >> 12`, clamped.
pub open spec fn simulate(k: Coeffs, p1: i16, p2: i16, scale: int, nib: int) -> i16 {
    clamp16((nib * 0x1000 * scale + k.0 * p1 + k.1 * p2) / 0x1000)
}

/// The residual codes of the samples `s` at one scale, and the samples rebuilt from them,
/// each sample coded against the history of rebuilt samples.
pub open spec fn encode_run(k: Coeffs, scale: int, p1: i16, p2: i16, s: Seq<i16>) -> (
    Seq<int>,
    Seq<i16>,
)
    decreases s.len(),
{
    if s.len() == 0 {
        (Seq::empty(), Seq::empty())
    } else {
        let prev = encode_run(k, scale, p1, p2, s.drop_last());
        let h = history(p1, p2, prev.1);
        let nib = quantize(residual(k, h.0, h.1, s.last()), scale);
        (prev.0.push(nib), prev.1.push(simulate(k, h.0, h.1, scale, nib)))
    }
}

/// Two residual codes in one byte, the first in the high half.
pub open spec fn pack_nibbles(a: int, b: int) -> u8 {
    ((a % 16) * 16 + b % 16) as u8
}

/// The 16 bytes of 32 residual codes.
pub open spec fn nibble_bytes(nibs: Seq<int>) -> Seq<u8> {
    Seq::new(16, |i: int| pack_nibbles(nibs[2 * i], nibs[2 * i + 1]))
}

/// `s` padded with zero samples to a full block.
pub open spec fn block_padded(s: Seq<i16>) -> Seq<i16> {
    s + Seq::new((BLOCK_SAMPLES - s.len()) as nat, |i: int| 0i16)
}

/// The 18 bytes of the block of samples `s` (at most 32, padded with zeros) coded from the
/// history `(p1, p2)`, and the history that the next block starts from.
pub open spec fn encode_block(k: Coeffs, p1: i16, p2: i16, s: Seq<i16>) -> (Seq<u8>, (i16, i16)) {
    let mn = res_min(k, p1, p2, s, s.len());
    let mx = res_max(k, p1, p2, s, s.len());
    if mn == 0 && mx == 0 {
        (Seq::new(BLOCK_BYTES as nat, |i: int| 0u8), history(p1, p2, s))
    } else {
        let scale = block_scale(mn, mx);
        let run = encode_run(k, scale, p1, p2, block_padded(s));
        (u16_be(scale as u16) + nibble_bytes(run.0), history(p1, p2, run.1))
    }
}

/// The encoder's rebuilt sample is the decoder's.
pub proof fn lemma_simulate_is_decode(k: Coeffs, p1: i16, p2: i16, scale: int, nib: int)
    ensures
        simulate(k, p1, p2, scale, nib) == decode_sample(k, p1, p2, scale, nib),
{
    let p = k.0 * p1 + k.1 * p2;
    let m = nib * scale;
    assert(nib * 0x1000 * scale == m * 0x1000) by (nonlinear_arith)
        requires
            m == nib * scale,
    ;
    assert(scale * nib == m) by (nonlinear_arith)
        requires
            m == nib * scale,
    ;
    assert(nib * 0x1000 * scale + k.0 * p1 + k.1 * p2 == m * 0x1000 + p);
    assert((m * 0x1000 + p) / 0x1000 == p / 0x1000 + m) by (nonlinear_arith);
}

/// Decoding the residual codes that the encoder chose, from the same history, rebuilds
/// exactly the samples that the encoder simulated.
pub proof fn lemma_encoder_decoder_agree(k: Coeffs, scale: int, p1: i16, p2: i16, s: Seq<i16>)
    ensures
        decode_run(k, scale, p1, p2, encode_run(k, scale, p1, p2, s).0) == encode_run(
            k,
            scale,
            p1,
            p2,
            s,
        ).1,
        encode_run(k, scale, p1, p2, s).0.len() == s.len(),
        encode_run(k, scale, p1, p2, s).1.len() == s.len(),
    decreases s.len(),
{
    if s.len() > 0 {
        let prev = encode_run(k, scale, p1, p2, s.drop_last());
        lemma_encoder_decoder_agree(k, scale, p1, p2, s.drop_last());
        let run = encode_run(k, scale, p1, p2, s);
        assert(run.0.drop_last() =~= prev.0);
        let h = history(p1, p2, prev.1);
        let nib = quantize(residual(k, h.0, h.1, s.last()), scale);
        lemma_simulate_is_decode(k, h.0, h.1, scale, nib);
    }
}

pub proof fn lemma_residual_bound(k: Coeffs, p1: i16, p2: i16, s: i16)
    requires
        coeffs_ok(k),
    ensures
        -0x2_0000 <= residual(k, p1, p2, s) <= 0x2_0000,
{
    let x = s * 0x1000 - k.0 * p1 - k.1 * p2;
    assert(-0x2000_0000 <= x <= 0x2000_0000) by (nonlinear_arith)
        requires
            x == s * 0x1000 - k.0 * p1 - k.1 * p2,
            0 <= k.0 <= 0x2000,
            -0x1000 <= k.1 <= 0,
            -0x8000 <= s < 0x8000,
            -0x8000 <= p1 < 0x8000,
            -0x8000 <= p2 < 0x8000,
    ;
    assert(-0x2_0000 <= x / 0x1000 <= 0x2_0000) by (nonlinear_arith)
        requires
            -0x2000_0000 <= x <= 0x2000_0000,
    ;
}

/// The running extremes depend only on the samples they have seen.
proof fn lemma_res_prefix(k: Coeffs, p1: i16, p2: i16, s1: Seq<i16>, s2: Seq<i16>, n: nat)
    requires
        n <= s1.len(),
        n <= s2.len(),
        s1.take(n as int) == s2.take(n as int),
    ensures
        res_min(k, p1, p2, s1, n) == res_min(k, p1, p2, s2, n),
        res_max(k, p1, p2, s1, n) == res_max(k, p1, p2, s2, n),
    decreases n,
{
    if n > 0 {
        assert(s1.take(n - 1) =~= s1.take(n as int).take(n - 1));
        assert(s2.take(n - 1) =~= s2.take(n as int).take(n - 1));
        lemma_res_prefix(k, p1, p2, s1, s2, (n - 1) as nat);
        assert(s1[n - 1] == s1.take(n as int)[n - 1]);
        assert(s2[n - 1] == s2.take(n as int)[n - 1]);
    }
}

/// The bytes of the first `n` pairs of residual codes.
pub open spec fn packed_prefix(nibs: Seq<int>, n: nat) -> Seq<u8>
    decreases n,
{
    if n == 0 {
        Seq::empty()
    } else {
        packed_prefix(nibs, (n - 1) as nat).push(
            pack_nibbles(nibs[2 * (n - 1)], nibs[2 * (n - 1) + 1]),
        )
    }
}

proof fn lemma_packed_prefix_stable(nibs: Seq<int>, n: nat)
    requires
        2 * n + 2 <= nibs.len(),
    ensures
        packed_prefix(nibs, n + 1) == packed_prefix(nibs.take(2 * n as int), n).push(
            pack_nibbles(nibs[2 * n as int], nibs[2 * n as int + 1]),
        ),
{
    lemma_packed_prefix_agree(nibs, nibs.take(2 * n as int), n);
}

proof fn lemma_packed_prefix_agree(a: Seq<int>, b: Seq<int>, n: nat)
    requires
        2 * n <= a.len(),
        2 * n <= b.len(),
        forall|i: int| 0 <= i < 2 * n ==> a[i] == b[i],
    ensures
        packed_prefix(a, n) == packed_prefix(b, n),
    decreases n,
{
    if n > 0 {
        lemma_packed_prefix_agree(a, b, (n - 1) as nat);
    }
}

proof fn lemma_packed_prefix_all(nibs: Seq<int>)
    requires
        nibs.len() == BLOCK_SAMPLES,
    ensures
        packed_prefix(nibs, 16) == nibble_bytes(nibs),
{
    assert forall|n: nat| n <= 16 implies #[trigger] packed_prefix(nibs, n) =~= Seq::new(
        n,
        |i: int| pack_nibbles(nibs[2 * i], nibs[2 * i + 1]),
    ) by {
        lemma_packed_prefix_new(nibs, n);
    }
    assert(packed_prefix(nibs, 16) =~= nibble_bytes(nibs));
}

proof fn lemma_packed_prefix_new(nibs: Seq<int>, n: nat)
    ensures
        packed_prefix(nibs, n) =~= Seq::new(n, |i: int| pack_nibbles(nibs[2 * i], nibs[2 * i + 1])),
    decreases n,
{
    if n > 0 {
        lemma_packed_prefix_new(nibs, (n - 1) as nat);
    }
}

fn pack_byte(upper: i64, lower: i64) -> (r: u8)
    requires
        -8 <= upper <= 7,
        -8 <= lower <= 7,
    ensures
        r == pack_nibbles(upper as int, lower as int),
{
    (((upper + 16) % 16) * 16 + (lower + 16) % 16) as u8
}

proof fn lemma_run_step(k: Coeffs, scale: int, op: (i16, i16), s: Seq<i16>, j: int)
    requires
        0 <= j < s.len(),
    ensures
        ({
            let prev = encode_run(k, scale, op.0, op.1, s.take(j));
            let h = history(op.0, op.1, prev.1);
            let nib = quantize(residual(k, h.0, h.1, s[j]), scale);
            encode_run(k, scale, op.0, op.1, s.take(j + 1)) == (
                prev.0.push(nib),
                prev.1.push(simulate(k, h.0, h.1, scale, nib)),
            )
        }),
{
    assert(s.take(j + 1).drop_last() =~= s.take(j));
}

/// One channel's block of the frame being gathered.
pub struct Block {
    prev: (i16, i16),
    orig_prev: (i16, i16),
    min: i64,
    max: i64,
    samples: Vec<i16>,
    size: usize,
}

impl Block {
    /// The samples pushed so far.
    pub closed spec fn pushed(&self) -> Seq<i16> {
        self.samples@.take(self.size as int)
    }

    /// The history that the block is coded from.
    pub closed spec fn start(&self) -> (i16, i16) {
        self.orig_prev
    }

    /// The history after the last sample that was pushed or written.
    pub closed spec fn last(&self) -> (i16, i16) {
        self.prev
    }

    pub closed spec fn inv(&self, k: Coeffs) -> bool {
        &&& self.samples@.len() == BLOCK_SAMPLES
        &&& self.size <= BLOCK_SAMPLES
        &&& forall|i: int| self.size <= i < BLOCK_SAMPLES ==> self.samples@[i] == 0
        &&& self.min == res_min(k, self.orig_prev.0, self.orig_prev.1, self.pushed(), self.size as nat)
        &&& self.max == res_max(k, self.orig_prev.0, self.orig_prev.1, self.pushed(), self.size as nat)
        &&& -0x2_0000 <= self.min <= 0 <= self.max <= 0x2_0000
        &&& self.prev == history(self.orig_prev.0, self.orig_prev.1, self.pushed())
    }

    fn with_history(prev: (i16, i16)) -> (r: Block)
        ensures
            forall|k: Coeffs| #[trigger] r.inv(k),
            r.pushed() == Seq::<i16>::empty(),
            r.start() == prev,
    {
        let r = Block { prev, orig_prev: prev, min: 0, max: 0, samples: vec![0i16; BLOCK_SAMPLES], size: 0 };
        assert(r.pushed() =~= Seq::<i16>::empty());
        r
    }

    /// An empty block that starts from silence.
    pub fn new() -> (r: Block)
        ensures
            forall|k: Coeffs| #[trigger] r.inv(k),
            r.pushed() == Seq::<i16>::empty(),
            r.start() == (0i16, 0i16),
    {
        Block::with_history((0, 0))
    }

    /// An empty block that continues from where `other` stopped.
    pub fn from_prev(other: &Block) -> (r: Block)
        ensures
            forall|k: Coeffs| #[trigger] r.inv(k),
            r.pushed() == Seq::<i16>::empty(),
            r.start() == other.last(),
    {
        Block::with_history(other.prev)
    }

    /// Adds a sample, and tracks the extremes of the residuals.
    pub fn push(&mut self, sample: i16, k: Coeffs)
        requires
            old(self).inv(k),
            old(self).pushed().len() < BLOCK_SAMPLES,
            coeffs_ok(k),
        ensures
            final(self).inv(k),
            final(self).pushed() == old(self).pushed().push(sample),
            final(self).start() == old(self).start(),
    {
        let ghost old_pushed = self.pushed();
        let ghost op = self.orig_prev;
        proof {
            lemma_residual_bound(k, self.prev.0, self.prev.1, sample);
        }
        let delta = asr12(sample as i64 * 0x1000 - prediction_fp(k, self.prev.0, self.prev.1));
        if delta < self.min {
            self.min = delta;
        } else if delta > self.max {
            self.max = delta;
        }
        self.samples.set(self.size, sample);
        self.size = self.size + 1;
        self.prev = (sample, self.prev.0);
        proof {
            let np = self.pushed();
            assert(np =~= old_pushed.push(sample));
            assert(np.take(np.len() - 1) =~= old_pushed);
            assert(np.take(old_pushed.len() as int) =~= old_pushed.take(old_pushed.len() as int));
            lemma_res_prefix(k, op.0, op.1, np, old_pushed, old_pushed.len());
            lemma_history_push(op.0, op.1, old_pushed, sample);
        }
    }

    fn is_empty(&self) -> (r: bool)
        requires
            self.samples@.len() == BLOCK_SAMPLES,
            self.size <= BLOCK_SAMPLES,
        ensures
            r == (self.pushed().len() == 0),
    {
        self.size == 0
    }

    fn is_full(&self) -> (r: bool)
        requires
            self.samples@.len() == BLOCK_SAMPLES,
            self.size <= BLOCK_SAMPLES,
        ensures
            r == (self.pushed().len() == BLOCK_SAMPLES),
    {
        self.size == BLOCK_SAMPLES
    }

    /// Codes one sample at `scale` against the rebuilt history, and moves that history on by
    /// the sample the decoder will rebuild.
    fn get_nibble(&mut self, sample: i16, scale: i64, k: Coeffs) -> (nib: i64)
        requires
            1 <= scale <= 0xffff,
            coeffs_ok(k),
        ensures
            nib == quantize(residual(k, old(self).prev.0, old(self).prev.1, sample), scale as int),
            -8 <= nib <= 7,
            final(self).prev == (
                simulate(k, old(self).prev.0, old(self).prev.1, scale as int, nib as int),
                old(self).prev.0,
            ),
            final(self).orig_prev == old(self).orig_prev,
            final(self).min == old(self).min,
            final(self).max == old(self).max,
            final(self).samples == old(self).samples,
            final(self).size == old(self).size,
    {
        proof {
            lemma_residual_bound(k, self.prev.0, self.prev.1, sample);
        }
        let prediction = prediction_fp(k, self.prev.0, self.prev.1);
        let delta = asr12(sample as i64 * 0x1000 - prediction);
        let h = scale / 2;
        let unclipped = if delta > 0 {
            (delta + h) / scale
        } else {
            -((-delta + h) / scale)
        };
        let nibble: i64 = if unclipped >= 7 {
            7
        } else if unclipped <= -8 {
            -8
        } else {
            unclipped
        };
        assert(-0x8000_0000 <= nibble * 0x1000 * scale <= 0x8000_0000) by (nonlinear_arith)
            requires
                -8 <= nibble <= 7,
                1 <= scale <= 0xffff,
        ;
        let simulated = clamp_i16(asr12(nibble * 0x1000 * scale + prediction));
        self.prev = (simulated, self.prev.0);
        nibble
    }

    /// Writes the block: 18 zero bytes where every residual is zero, else the scale and the
    /// 32 residual codes, the unfilled tail coded as zero samples.
    pub fn to_writer(&mut self, writer: &mut Vec<u8>, k: Coeffs)
        requires
            old(self).inv(k),
            coeffs_ok(k),
        ensures
            final(writer)@ == old(writer)@ + encode_block(
                k,
                old(self).start().0,
                old(self).start().1,
                old(self).pushed(),
            ).0,
            final(self).last() == encode_block(
                k,
                old(self).start().0,
                old(self).start().1,
                old(self).pushed(),
            ).1,
    {
        let ghost w0 = writer@;
        let ghost op = self.orig_prev;
        let ghost pushed = self.pushed();
        if self.min == 0 && self.max == 0 {
            let mut i: usize = 0;
            while i < BLOCK_BYTES
                invariant
                    i <= BLOCK_BYTES,
                    writer@ =~= w0 + Seq::new(i as nat, |j: int| 0u8),
                decreases BLOCK_BYTES - i,
            {
                writer.push(0);
                i = i + 1;
            }
            return;
        }
        let a = (self.max + 6) / 7;
        let b = (-self.min + 7) / 8;
        let mut scale: i64 = if a > b {
            a
        } else {
            b
        };
        if scale == 0 {
            scale = 1;
        }
        assert(scale == block_scale(self.min as int, self.max as int));
        self.prev = self.orig_prev;
        write_u16(writer, scale as u16);
        let ghost padded = self.samples@;
        assert(padded =~= block_padded(pushed));
        let ghost w1 = writer@;
        let ghost mut nibs: Seq<int> = Seq::empty();
        let ghost mut recon: Seq<i16> = Seq::empty();
        assert(padded.take(0) =~= Seq::<i16>::empty());
        let mut byte_idx: usize = 0;
        while byte_idx < BLOCK_SAMPLES / 2
            invariant
                byte_idx <= BLOCK_SAMPLES / 2,
                1 <= scale <= 0xffff,
                coeffs_ok(k),
                self.samples@ == padded,
                padded.len() == BLOCK_SAMPLES,
                self.orig_prev == op,
                (nibs, recon) == encode_run(k, scale as int, op.0, op.1, padded.take(2 * byte_idx)),
                nibs.len() == 2 * byte_idx,
                self.prev == history(op.0, op.1, recon),
                writer@ == w1 + packed_prefix(nibs, byte_idx as nat),
            decreases BLOCK_SAMPLES / 2 - byte_idx,
        {
            let sample1 = self.samples[byte_idx * 2];
            let sample2 = self.samples[byte_idx * 2 + 1];
            let ghost nibs0 = nibs;
            let upper = self.get_nibble(sample1, scale, k);
            proof {
                lemma_run_step(k, scale as int, op, padded, 2 * byte_idx as int);
                lemma_history_push(op.0, op.1, recon, self.prev.0);
                nibs = nibs.push(upper as int);
                recon = recon.push(self.prev.0);
            }
            let lower = self.get_nibble(sample2, scale, k);
            proof {
                lemma_run_step(k, scale as int, op, padded, 2 * byte_idx + 1);
                lemma_history_push(op.0, op.1, recon, self.prev.0);
                nibs = nibs.push(lower as int);
                recon = recon.push(self.prev.0);
            }
            let byte = pack_byte(upper, lower);
            proof {
                assert(nibs.take(2 * byte_idx) =~= nibs0);
                lemma_packed_prefix_stable(nibs, byte_idx as nat);
                lemma_packed_prefix_agree(nibs, nibs0, byte_idx as nat);
            }
            writer.push(byte);
            byte_idx = byte_idx + 1;
        }
        assert(padded.take(BLOCK_SAMPLES as int) =~= padded);
        proof {
            lemma_packed_prefix_all(nibs);
        }
        assert(writer@ =~= w0 + u16_be(scale as u16) + nibble_bytes(
            encode_run(k, scale as int, op.0, op.1, padded).0,
        ));
    }
}

/// Channel `c` of a run of multi-channel samples.
pub open spec fn channel_of(samples: Seq<Seq<i16>>, c: int) -> Seq<i16> {
    Seq::new(samples.len(), |i: int| samples[i][c])
}

/// The bytes of channels `0..n` of one frame, each coded from its history in `hist`, and the
/// histories after them.
pub open spec fn encode_frame(k: Coeffs, hist: Seq<(i16, i16)>, frame: Seq<Seq<i16>>, n: nat) -> (
    Seq<u8>,
    Seq<(i16, i16)>,
)
    decreases n,
{
    if n == 0 {
        (Seq::empty(), Seq::empty())
    } else {
        let prev = encode_frame(k, hist, frame, (n - 1) as nat);
        let b = encode_block(k, hist[n - 1].0, hist[n - 1].1, channel_of(frame, n - 1));
        (prev.0 + b.0, prev.1.push(b.1))
    }
}

/// The data section of the first `nf` full frames of `inputs` over `ch` channels, and the
/// histories after them.
pub open spec fn encode_frames(k: Coeffs, ch: nat, inputs: Seq<Seq<i16>>, nf: nat) -> (
    Seq<u8>,
    Seq<(i16, i16)>,
)
    decreases nf,
{
    if nf == 0 {
        (Seq::empty(), Seq::new(ch, |c: int| (0i16, 0i16)))
    } else {
        let prev = encode_frames(k, ch, inputs, (nf - 1) as nat);
        let f = encode_frame(
            k,
            prev.1,
            inputs.subrange(BLOCK_SAMPLES * (nf - 1), BLOCK_SAMPLES * nf),
            ch,
        );
        (prev.0 + f.0, f.1)
    }
}

proof fn lemma_encode_frame_len(k: Coeffs, hist: Seq<(i16, i16)>, frame: Seq<Seq<i16>>, n: nat)
    ensures
        encode_frame(k, hist, frame, n).1.len() == n,
    decreases n,
{
    if n > 0 {
        lemma_encode_frame_len(k, hist, frame, (n - 1) as nat);
    }
}

proof fn lemma_encode_frames_len(k: Coeffs, ch: nat, inputs: Seq<Seq<i16>>, nf: nat)
    ensures
        encode_frames(k, ch, inputs, nf).1.len() == ch,
    decreases nf,
{
    if nf > 0 {
        lemma_encode_frames_len(k, ch, inputs, (nf - 1) as nat);
        let prev = encode_frames(k, ch, inputs, (nf - 1) as nat);
        lemma_encode_frame_len(
            k,
            prev.1,
            inputs.subrange(BLOCK_SAMPLES * (nf - 1), BLOCK_SAMPLES * nf),
            ch,
        );
    }
}

/// Frames already coded do not depend on later input.
proof fn lemma_encode_frames_prefix(
    k: Coeffs,
    ch: nat,
    a: Seq<Seq<i16>>,
    b: Seq<Seq<i16>>,
    nf: nat,
)
    requires
        BLOCK_SAMPLES * nf <= a.len(),
        BLOCK_SAMPLES * nf <= b.len(),
        a.take(BLOCK_SAMPLES * nf) == b.take(BLOCK_SAMPLES * nf),
    ensures
        encode_frames(k, ch, a, nf) == encode_frames(k, ch, b, nf),
    decreases nf,
{
    if nf > 0 {
        let n1 = BLOCK_SAMPLES * (nf - 1);
        let n2 = BLOCK_SAMPLES * nf;
        assert(a.take(n1) =~= a.take(n2).take(n1));
        assert(b.take(n1) =~= b.take(n2).take(n1));
        lemma_encode_frames_prefix(k, ch, a, b, (nf - 1) as nat);
        assert(a.subrange(n1, n2) =~= a.take(n2).subrange(n1, n2));
        assert(b.subrange(n1, n2) =~= b.take(n2).subrange(n1, n2));
    }
}

/// The blocks of the frame being gathered, one per channel.
struct Frame {
    blocks: Vec<Block>,
}

impl Frame {
    closed spec fn inv(&self, k: Coeffs, ch: nat) -> bool {
        &&& self.blocks@.len() == ch
        &&& ch >= 1
        &&& forall|c: int| 0 <= c < ch ==> (#[trigger] self.blocks@[c]).inv(k)
        &&& forall|c: int|
            0 <= c < ch ==> (#[trigger] self.blocks@[c]).pushed().len()
                == self.blocks@[0].pushed().len()
    }

    closed spec fn count(&self) -> nat {
        self.blocks@[0].pushed().len()
    }

    closed spec fn starts(&self) -> Seq<(i16, i16)> {
        Seq::new(self.blocks@.len(), |c: int| self.blocks@[c].start())
    }

    closed spec fn lasts(&self) -> Seq<(i16, i16)> {
        Seq::new(self.blocks@.len(), |c: int| self.blocks@[c].last())
    }

    /// Whether the blocks hold the samples `pending`.
    closed spec fn holds(&self, pending: Seq<Seq<i16>>) -> bool {
        forall|c: int|
            0 <= c < self.blocks@.len() ==> (#[trigger] self.blocks@[c]).pushed() == channel_of(
                pending,
                c,
            )
    }

    fn with_histories(hist: &Vec<(i16, i16)>, Ghost(k): Ghost<Coeffs>) -> (r: Frame)
        requires
            hist@.len() >= 1,
        ensures
            r.inv(k, hist@.len()),
            r.starts() == hist@,
            r.holds(Seq::empty()),
            r.count() == 0,
    {
        let mut blocks: Vec<Block> = Vec::new();
        let mut c: usize = 0;
        while c < hist.len()
            invariant
                c <= hist@.len(),
                blocks@.len() == c,
                forall|j: int| 0 <= j < c ==> (#[trigger] blocks@[j]).inv(k),
                forall|j: int| 0 <= j < c ==> (#[trigger] blocks@[j]).pushed() == Seq::<i16>::empty(),
                forall|j: int| 0 <= j < c ==> (#[trigger] blocks@[j]).start() == hist@[j],
            decreases hist@.len() - c,
        {
            blocks.push(Block::with_history(hist[c]));
            c = c + 1;
        }
        let r = Frame { blocks };
        assert(r.starts() =~= hist@);
        assert forall|c: int| 0 <= c < r.blocks@.len() implies (#[trigger] r.blocks@[c]).pushed()
            == channel_of(Seq::empty(), c) by {
            assert(channel_of(Seq::<Seq<i16>>::empty(), c) =~= Seq::<i16>::empty());
        }
        r
    }

    fn new(channels: usize, Ghost(k): Ghost<Coeffs>) -> (r: Frame)
        requires
            channels >= 1,
        ensures
            r.inv(k, channels as nat),
            r.starts() == Seq::new(channels as nat, |c: int| (0i16, 0i16)),
            r.holds(Seq::empty()),
            r.count() == 0,
    {
        let mut hist: Vec<(i16, i16)> = Vec::new();
        let mut c: usize = 0;
        while c < channels
            invariant
                c <= channels,
                hist@ =~= Seq::new(c as nat, |j: int| (0i16, 0i16)),
            decreases channels - c,
        {
            hist.push((0, 0));
            c = c + 1;
        }
        Frame::with_histories(&hist, Ghost(k))
    }

    /// A frame that continues from where every block of `other` stopped.
    fn from_prev(other: &Frame, Ghost(k): Ghost<Coeffs>) -> (r: Frame)
        requires
            other.blocks@.len() >= 1,
        ensures
            r.inv(k, other.blocks@.len()),
            r.starts() == other.lasts(),
            r.holds(Seq::empty()),
            r.count() == 0,
    {
        let mut hist: Vec<(i16, i16)> = Vec::new();
        let mut c: usize = 0;
        while c < other.blocks.len()
            invariant
                c <= other.blocks@.len(),
                hist@ =~= other.lasts().take(c as int),
            decreases other.blocks@.len() - c,
        {
            hist.push(other.blocks[c].prev);
            c = c + 1;
        }
        assert(hist@ =~= other.lasts());
        Frame::with_histories(&hist, Ghost(k))
    }

    fn push(&mut self, sample: &Vec<i16>, k: Coeffs, Ghost(ch): Ghost<nat>, Ghost(pending): Ghost<Seq<Seq<i16>>>)
        requires
            old(self).inv(k, ch),
            old(self).holds(pending),
            old(self).count() < BLOCK_SAMPLES,
            sample@.len() >= ch,
            coeffs_ok(k),
        ensures
            final(self).inv(k, ch),
            final(self).holds(pending.push(sample@)),
            final(self).count() == old(self).count() + 1,
            final(self).starts() == old(self).starts(),
    {
        let ghost n0 = self.count();
        let ghost st = self.starts();
        let ghost np = pending.push(sample@);
        let mut c: usize = 0;
        while c < self.blocks.len()
            invariant
                self.blocks@.len() == ch,
                ch >= 1,
                c <= ch,
                sample@.len() >= ch,
                coeffs_ok(k),
                forall|j: int| 0 <= j < ch ==> (#[trigger] self.blocks@[j]).inv(k),
                forall|j: int| 0 <= j < c ==> (#[trigger] self.blocks@[j]).pushed() == channel_of(np, j),
                forall|j: int| c <= j < ch ==> (#[trigger] self.blocks@[j]).pushed() == channel_of(pending, j),
                forall|j: int| 0 <= j < c ==> (#[trigger] self.blocks@[j]).pushed().len() == n0 + 1,
                forall|j: int| c <= j < ch ==> (#[trigger] self.blocks@[j]).pushed().len() == n0,
                n0 < BLOCK_SAMPLES,
                np == pending.push(sample@),
                Seq::new(self.blocks@.len(), |j: int| self.blocks@[j].start()) == st,
            decreases ch - c,
        {
            let x = sample[c];
            proof {
                assert(x == sample@[c as int]);
                assert(channel_of(np, c as int) =~= channel_of(pending, c as int).push(x)) by {
                    assert(np.len() == pending.len() + 1);
                    assert(np[pending.len() as int] == sample@);
                    assert forall|i: int| 0 <= i < pending.len() implies np[i] == pending[i] by {}
                }
            }
            self.blocks[c].push(x, k);
            proof {
                assert(Seq::new(self.blocks@.len(), |j: int| self.blocks@[j].start()) =~= st);
            }
            c = c + 1;
        }
    }

    fn is_empty(&self, Ghost(k): Ghost<Coeffs>, Ghost(ch): Ghost<nat>) -> (r: bool)
        requires
            self.inv(k, ch),
        ensures
            r == (self.count() == 0),
    {
        self.blocks[0].is_empty()
    }

    fn is_full(&self, Ghost(k): Ghost<Coeffs>, Ghost(ch): Ghost<nat>) -> (r: bool)
        requires
            self.inv(k, ch),
        ensures
            r == (self.count() == BLOCK_SAMPLES),
    {
        self.blocks[0].is_full()
    }

    fn to_writer(&mut self, writer: &mut Vec<u8>, k: Coeffs, Ghost(ch): Ghost<nat>, Ghost(pending): Ghost<Seq<Seq<i16>>>)
        requires
            old(self).inv(k, ch),
            old(self).holds(pending),
            coeffs_ok(k),
        ensures
            final(writer)@ == old(writer)@ + encode_frame(k, old(self).starts(), pending, ch).0,
            final(self).lasts() == encode_frame(k, old(self).starts(), pending, ch).1,
            final(self).blocks@.len() == ch,
    {
        let ghost st = self.starts();
        let ghost w0 = writer@;
        let mut c: usize = 0;
        while c < self.blocks.len()
            invariant
                self.blocks@.len() == ch,
                c <= ch,
                coeffs_ok(k),
                st.len() == ch,
                forall|j: int| c <= j < ch ==> (#[trigger] self.blocks@[j]).inv(k),
                forall|j: int| c <= j < ch ==> (#[trigger] self.blocks@[j]).pushed() == channel_of(pending, j),
                forall|j: int| c <= j < ch ==> (#[trigger] self.blocks@[j]).start() == st[j],
                writer@ == w0 + encode_frame(k, st, pending, c as nat).0,
                Seq::new(c as nat, |j: int| self.blocks@[j].last()) == encode_frame(k, st, pending, c as nat).1,
            decreases ch - c,
        {
            proof {
                lemma_encode_frame_len(k, st, pending, c as nat);
            }
            let ghost before = Seq::new(c as nat, |j: int| self.blocks@[j].last());
            self.blocks[c].to_writer(writer, k);
            proof {
                assert(writer@ =~= w0 + encode_frame(k, st, pending, (c + 1) as nat).0);
                assert(Seq::new((c + 1) as nat, |j: int| self.blocks@[j].last()) =~= before.push(self.blocks@[c as int].last()));
            }
            c = c + 1;
        }
        assert(self.lasts() =~= Seq::new(ch, |j: int| self.blocks@[j].last()));
    }
}

/// The highpass frequency that the encoder codes with.
pub const HIGHPASS_FREQ: u32 = 0x01F4;

/// The sector size that a loop start must be aligned to, counted from the start of the file.
pub const SECTOR: u64 = 0x800;

/// The zero samples put before the input so that the loop start falls on a block boundary.
pub open spec fn alignment_of(spec: AdxSpec) -> nat {
    match spec.loop_info {
        Some(li) => ((32 - li.start_sample as int % 32) % 32) as nat,
        None => 0,
    }
}

/// The loop moved by the alignment samples.
pub open spec fn aligned_loop(spec: AdxSpec) -> Option<LoopInfo> {
    match spec.loop_info {
        Some(li) => Some(
            LoopInfo {
                start_sample: (li.start_sample + alignment_of(spec)) as u32,
                end_sample: (li.end_sample + alignment_of(spec)) as u32,
            },
        ),
        None => None,
    }
}

/// Bytes of the data section before sample `s`: whole frames, rounded up.
pub open spec fn sample_to_byte(s: int, ch: int) -> int {
    (s + 31) / 32 * BLOCK_BYTES * ch
}

/// The smallest header size of at least `ADX_HEADER_LEN` that puts data byte `b` on a sector
/// boundary.
pub open spec fn loop_header_size(b: int) -> int {
    let blocks = if b % SECTOR as int > SECTOR - ADX_HEADER_LEN {
        b / SECTOR as int + 1
    } else {
        b / SECTOR as int
    };
    (blocks + 1) * SECTOR - b
}

/// The header size chosen for `spec`.
pub open spec fn header_size_of(spec: AdxSpec) -> int {
    match aligned_loop(spec) {
        Some(li) => loop_header_size(sample_to_byte(li.start_sample as int, spec.channels as int)),
        None => ADX_HEADER_LEN as int,
    }
}

/// What the encoder accepts: one to 255 channels (the header holds the count in a byte), and
/// a loop whose aligned bounds and byte offsets fit the header's 32-bit fields.
pub open spec fn encoder_spec_ok(spec: AdxSpec) -> bool {
    &&& 1 <= spec.channels <= 255
    &&& match spec.loop_info {
        Some(li) => {
            &&& li.start_sample + 31 <= u32::MAX
            &&& li.end_sample + 31 <= u32::MAX
            &&& sample_to_byte(li.start_sample + 31, spec.channels as int) + 0x1000 <= u32::MAX
            &&& sample_to_byte(li.end_sample + 31, spec.channels as int) + 0x1000 <= u32::MAX
        },
        None => true,
    }
}

/// The header written for `spec` after `total` samples (alignment included).
pub open spec fn encoded_header(spec: AdxSpec, total: int) -> AdxHeader {
    let h = header_size_of(spec);
    AdxHeader {
        encoding: AdxEncoding::Standard,
        block_size: BLOCK_BYTES as u8,
        sample_bitdepth: 4,
        channel_count: spec.channels as u8,
        sample_rate: spec.sample_rate,
        total_samples: total as u32,
        highpass_frequency: HIGHPASS_FREQ as u16,
        version: AdxVersion::Version3(
            match aligned_loop(spec) {
                Some(li) => Some(
                    AdxVersion3LoopInfo {
                        alignment_samples: alignment_of(spec) as u16,
                        enabled_short: 1,
                        enabled_int: 1,
                        begin_sample: li.start_sample,
                        begin_byte: (sample_to_byte(li.start_sample as int, spec.channels as int)
                            + h) as u32,
                        end_sample: li.end_sample,
                        end_byte: (sample_to_byte(li.end_sample as int, spec.channels as int)
                            + h) as u32,
                    },
                ),
                None => None,
            },
        ),
        flags: 0,
    }
}

/// The end-of-stream block: scale `0x8001`, then `0x000e`, then 14 zero bytes.
pub open spec fn terminator() -> Seq<u8> {
    u16_be(0x8001) + u16_be(0x000e) + Seq::new(14, |i: int| 0u8)
}

/// The whole file for the samples `fed` (the alignment samples first) under `spec`: header,
/// the full frames, the last partial frame padded with zero samples, and the terminator.
pub open spec fn standard_file(k: Coeffs, spec: AdxSpec, fed: Seq<Seq<i16>>) -> Seq<u8> {
    let ch = spec.channels as nat;
    let nf = fed.len() / BLOCK_SAMPLES as nat;
    let frames = encode_frames(k, ch, fed, nf);
    let rest = fed.subrange(BLOCK_SAMPLES * nf, fed.len() as int);
    let tail = if rest.len() == 0 {
        Seq::empty()
    } else {
        encode_frame(k, frames.1, rest, ch).0
    };
    header_bytes(encoded_header(spec, fed.len() as int), header_size_of(spec)) + frames.0 + tail
        + terminator()
}

/// The loop start lands on a sector boundary, and the header is at least the standard length
/// and at most two sectors.
pub proof fn lemma_sector_alignment(b: int)
    requires
        b >= 0,
    ensures
        (loop_header_size(b) + b) % SECTOR as int == 0,
        ADX_HEADER_LEN <= loop_header_size(b) <= 2 * SECTOR,
{
    let q = b / SECTOR as int;
    let r = b % SECTOR as int;
    assert(b == q * SECTOR + r && 0 <= r < SECTOR) by (nonlinear_arith)
        requires
            q == b / SECTOR as int,
            r == b % SECTOR as int,
    ;
    let blocks = if r > SECTOR - ADX_HEADER_LEN {
        q + 1
    } else {
        q
    };
    assert((blocks + 1) * SECTOR - b + b == (blocks + 1) * SECTOR);
    assert(((blocks + 1) * SECTOR) % SECTOR as int == 0) by (nonlinear_arith);
}

/// Bytes of the data section before sample `s`.
fn sample_to_byte_exec(s: u32, channels: u32) -> (r: u64)
    requires
        channels <= 255,
    ensures
        r == sample_to_byte(s as int, channels as int),
{
    let mut frames: u64 = (s / 32) as u64;
    if s % 32 != 0 {
        frames = frames + 1;
    }
    assert(frames == (s + 31) / 32) by (nonlinear_arith)
        requires
            frames == (if s % 32 != 0 { s as int / 32 + 1 } else { s as int / 32 }),
    ;
    assert(frames * 18 * channels <= 0x1_0000_0000 * 18 * 255) by (nonlinear_arith)
        requires
            frames <= 0x1_0000_0000,
            channels <= 255,
    ;
    frames * 18 * channels as u64
}

/// The header size that puts data byte `b` on a sector boundary.
fn loop_header_size_exec(b: u64) -> (r: u64)
    requires
        b <= 0x1_0000_0000_0000,
    ensures
        r == loop_header_size(b as int),
        (r + b) % SECTOR as int == 0,
        ADX_HEADER_LEN <= r <= 2 * SECTOR,
{
    proof {
        lemma_sector_alignment(b as int);
    }
    let mut fs_blocks = b / SECTOR;
    if b % SECTOR > SECTOR - ADX_HEADER_LEN as u64 {
        fs_blocks = fs_blocks + 1;
    }
    fs_blocks = fs_blocks + 1;
    assert(fs_blocks * SECTOR >= b) by (nonlinear_arith)
        requires
            fs_blocks >= b as int / SECTOR as int + 1,
    ;
    assert(fs_blocks * SECTOR <= b + 2 * SECTOR) by (nonlinear_arith)
        requires
            fs_blocks <= b as int / SECTOR as int + 2,
    ;
    fs_blocks * SECTOR - b
}

fn zero_sample(channels: usize) -> (r: Sample)
    ensures
        r@ == Seq::new(channels as nat, |c: int| 0i16),
{
    let mut z: Vec<i16> = Vec::new();
    let mut c: usize = 0;
    while c < channels
        invariant
            c <= channels,
            z@ =~= Seq::new(c as nat, |j: int| 0i16),
        decreases channels - c,
    {
        z.push(0);
        c = c + 1;
    }
    z
}

proof fn lemma_stb_mono(x: int, y: int, ch: int)
    requires
        0 <= x <= y,
        0 <= ch,
    ensures
        0 <= sample_to_byte(x, ch) <= sample_to_byte(y, ch),
{
    assert((x + 31) / 32 <= (y + 31) / 32) by (nonlinear_arith)
        requires
            0 <= x <= y,
    ;
    assert(0 <= (x + 31) / 32 * BLOCK_BYTES * ch <= (y + 31) / 32 * BLOCK_BYTES * ch) by (nonlinear_arith)
        requires
            0 <= (x + 31) / 32 <= (y + 31) / 32,
            0 <= ch,
    ;
}

/// The loop's byte offsets, header included, fit the header's 32-bit fields.
proof fn lemma_loop_bytes_fit(spec: AdxSpec)
    requires
        encoder_spec_ok(spec),
    ensures
        alignment_of(spec) < 32,
        ADX_HEADER_LEN <= header_size_of(spec) <= 0x1000,
        match aligned_loop(spec) {
            Some(li) => {
                &&& li.start_sample == spec.loop_info->Some_0.start_sample + alignment_of(spec)
                &&& li.end_sample == spec.loop_info->Some_0.end_sample + alignment_of(spec)
                &&& sample_to_byte(li.start_sample as int, spec.channels as int) + header_size_of(spec) <= u32::MAX
                &&& sample_to_byte(li.end_sample as int, spec.channels as int) + header_size_of(spec) <= u32::MAX
            },
            None => true,
        },
{
    match spec.loop_info {
        Some(li) => {
            let a = alignment_of(spec);
            let ch = spec.channels as int;
            lemma_stb_mono(li.start_sample + a, li.start_sample + 31, ch);
            lemma_stb_mono(li.end_sample + a, li.end_sample + 31, ch);
            lemma_sector_alignment(sample_to_byte(li.start_sample + a, ch));
        },
        None => {},
    }
}

/// The samples `fed`, as per-channel vectors, after `samples`.
pub open spec fn views(samples: Seq<Sample>) -> Seq<Seq<i16>> {
    Seq::new(samples.len(), |i: int| samples[i]@)
}

/// An encoder of Standard ADX: it gathers samples into frames of 32 per channel, codes each
/// full frame as it fills, and writes the header last.
pub struct StandardEncoder {
    inner: Vec<u8>,
    user: Ghost<AdxSpec>,
    spec: AdxSpec,
    header_size: usize,
    alignment_samples: usize,
    coeffs: Coeffs,
    samples_encoded: usize,
    current_frame: Frame,
    fed: Ghost<Seq<Seq<i16>>>,
}

impl StandardEncoder {
    /// The specification the encoder was made with.
    pub closed spec fn user_spec(&self) -> AdxSpec {
        self.user@
    }

    /// The predictor coefficients.
    pub closed spec fn coeffs(&self) -> Coeffs {
        self.coeffs
    }

    /// Every sample taken so far, the alignment samples first.
    pub closed spec fn fed(&self) -> Seq<Seq<i16>> {
        self.fed@
    }

    pub closed spec fn wf(&self) -> bool {
        let user = self.user@;
        let ch = user.channels as nat;
        let k = self.coeffs;
        let fed = self.fed@;
        let nf = fed.len() / BLOCK_SAMPLES as nat;
        let frames = encode_frames(k, ch, fed, nf);
        &&& encoder_spec_ok(user)
        &&& coeffs_ok(k)
        &&& self.spec == AdxSpec { loop_info: aligned_loop(user), ..user }
        &&& self.header_size == header_size_of(user)
        &&& self.alignment_samples == alignment_of(user)
        &&& self.samples_encoded == fed.len()
        &&& fed.len() <= u32::MAX
        &&& forall|i: int| 0 <= i < fed.len() ==> (#[trigger] fed[i]).len() >= ch
        &&& self.inner@ == Seq::new(self.header_size as nat, |i: int| 0u8) + frames.0
        &&& self.current_frame.inv(k, ch)
        &&& self.current_frame.starts() == frames.1
        &&& self.current_frame.holds(fed.subrange(BLOCK_SAMPLES * nf, fed.len() as int))
        &&& self.current_frame.count() == fed.len() - BLOCK_SAMPLES * nf
    }

    /// Starts an encoding: room for the header, then the alignment samples that put the loop
    /// start on a block boundary.
    pub fn new(spec: AdxSpec, coeffs: Coeffs) -> (r: StandardEncoder)
        requires
            encoder_spec_ok(spec),
            coeffs_ok(coeffs),
        ensures
            r.wf(),
            r.user_spec() == spec,
            r.coeffs() == coeffs,
            r.fed() == Seq::new(
                alignment_of(spec),
                |i: int| Seq::new(spec.channels as nat, |c: int| 0i16),
            ),
    {
        let mut adjusted = spec;
        let mut alignment_samples: usize = 0;
        let mut header_size: usize = ADX_HEADER_LEN;
        match spec.loop_info {
            Some(li) => {
                let a = (32 - li.start_sample % 32) % 32;
                let start = li.start_sample + a;
                let end = li.end_sample + a;
                adjusted.loop_info = Some(LoopInfo { start_sample: start, end_sample: end });
                alignment_samples = a as usize;
                let b = sample_to_byte_exec(start, spec.channels);
                proof {
                    assert(b <= 0x1_0000_0000_0000) by (nonlinear_arith)
                        requires
                            b == (start + 31) / 32 * BLOCK_BYTES * spec.channels,
                            start <= u32::MAX,
                            spec.channels <= 255,
                    ;
                }
                header_size = loop_header_size_exec(b) as usize;
            },
            None => {},
        }
        let channels = spec.channels as usize;
        let inner: Vec<u8> = vec![0u8; header_size];
        let ghost k = coeffs;
        let ghost ch = channels as nat;
        let frame = Frame::new(channels, Ghost(k));
        let mut encoder = StandardEncoder {
            inner,
            user: Ghost(spec),
            spec: adjusted,
            header_size,
            alignment_samples,
            coeffs,
            samples_encoded: 0,
            current_frame: frame,
            fed: Ghost(Seq::empty()),
        };
        proof {
            reveal_with_fuel(encode_frames, 1);
            assert(encoder.inner@ =~= Seq::new(header_size as nat, |i: int| 0u8) + Seq::<u8>::empty());
            assert(Seq::<Seq<i16>>::empty().subrange(0, 0) =~= Seq::<Seq<i16>>::empty());
        }
        let mut zeros: Vec<Sample> = Vec::new();
        let mut i: usize = 0;
        while i < alignment_samples
            invariant
                i <= alignment_samples,
                alignment_samples < 32,
                ch == channels as nat,
                views(zeros@) =~= Seq::new(i as nat, |j: int| Seq::new(ch, |c: int| 0i16)),
            decreases alignment_samples - i,
        {
            let z = zero_sample(channels);
            let ghost before = views(zeros@);
            zeros.push(z);
            proof {
                assert(views(zeros@) =~= before.push(z@));
            }
            i = i + 1;
        }
        assert forall|j: int| 0 <= j < zeros@.len() implies (#[trigger] zeros@[j])@.len() >= spec.channels by {
            assert(views(zeros@)[j] == zeros@[j]@);
        }
        encoder.encode_data(zeros);
        assert(encoder.fed() =~= Seq::new(
            alignment_of(spec),
            |i: int| Seq::new(spec.channels as nat, |c: int| 0i16),
        ));
        encoder
    }

    /// Takes more samples, each with a value for every channel; every frame that fills is
    /// coded.
    pub fn encode_data(&mut self, samples: Vec<Sample>)
        requires
            old(self).wf(),
            forall|i: int|
                0 <= i < samples@.len() ==> (#[trigger] samples@[i])@.len()
                    >= old(self).user_spec().channels,
            old(self).fed().len() + samples@.len() <= u32::MAX,
        ensures
            final(self).wf(),
            final(self).fed() == old(self).fed() + views(samples@),
            final(self).user_spec() == old(self).user_spec(),
            final(self).coeffs() == old(self).coeffs(),
    {
        let ghost fed0 = self.fed@;
        let mut i: usize = 0;
        while i < samples.len()
            invariant
                self.wf(),
                i <= samples@.len(),
                self.fed@ == fed0 + views(samples@).take(i as int),
                self.user@ == old(self).user@,
                self.coeffs == old(self).coeffs,
                fed0.len() + samples@.len() <= u32::MAX,
                forall|j: int|
                    0 <= j < samples@.len() ==> (#[trigger] samples@[j])@.len() >= self.user@.channels,
            decreases samples@.len() - i,
        {
            self.push_sample(&samples[i]);
            proof {
                assert(views(samples@).take(i + 1) =~= views(samples@).take(i as int).push(samples@[i as int]@));
            }
            i = i + 1;
        }
        assert(views(samples@).take(samples@.len() as int) =~= views(samples@));
    }

    fn push_sample(&mut self, sample: &Sample)
        requires
            old(self).wf(),
            sample@.len() >= old(self).user@.channels,
            old(self).fed@.len() < u32::MAX,
        ensures
            final(self).wf(),
            final(self).fed@ == old(self).fed@.push(sample@),
            final(self).user@ == old(self).user@,
            final(self).coeffs == old(self).coeffs,
    {
        let ghost k = self.coeffs;
        let ghost ch = self.user@.channels as nat;
        let ghost fed0 = self.fed@;
        let ghost nf = fed0.len() / BLOCK_SAMPLES as nat;
        let ghost pending0 = fed0.subrange(BLOCK_SAMPLES * nf, fed0.len() as int);
        let ghost fed1 = fed0.push(sample@);
        let ghost pending1 = pending0.push(sample@);
        proof {
            assert(fed1.subrange(BLOCK_SAMPLES * nf, fed1.len() as int) =~= pending1);
            assert(fed1.take(BLOCK_SAMPLES * nf) =~= fed0.take(BLOCK_SAMPLES * nf));
            assert(BLOCK_SAMPLES * nf <= fed0.len()) by (nonlinear_arith)
                requires
                    nf == fed0.len() / BLOCK_SAMPLES as nat,
            ;
            lemma_encode_frames_prefix(k, ch, fed0, fed1, nf);
            lemma_encode_frames_len(k, ch, fed0, nf);
        }
        self.current_frame.push(sample, self.coeffs, Ghost(ch), Ghost(pending0));
        self.samples_encoded = self.samples_encoded + 1;
        self.fed = Ghost(fed1);
        if self.current_frame.is_full(Ghost(k), Ghost(ch)) {
            let ghost st = self.current_frame.starts();
            self.current_frame.to_writer(&mut self.inner, self.coeffs, Ghost(ch), Ghost(pending1));
            let new_frame = Frame::from_prev(&self.current_frame, Ghost(k));
            self.current_frame = new_frame;
            proof {
                assert(fed1.len() == BLOCK_SAMPLES * (nf + 1));
                assert(fed1.len() / BLOCK_SAMPLES as nat == nf + 1) by (nonlinear_arith)
                    requires
                        fed1.len() == BLOCK_SAMPLES * (nf + 1),
                ;
                assert(fed1.subrange(BLOCK_SAMPLES * nf, BLOCK_SAMPLES * (nf + 1)) =~= pending1);
                assert(fed1.subrange(BLOCK_SAMPLES * (nf + 1), fed1.len() as int) =~= Seq::<Seq<i16>>::empty());
                assert(self.inner@ =~= Seq::new(self.header_size as nat, |i: int| 0u8) + encode_frames(k, ch, fed1, nf + 1).0);
            }
        } else {
            proof {
                assert(fed1.len() / BLOCK_SAMPLES as nat == nf) by (nonlinear_arith)
                    requires
                        fed1.len() == BLOCK_SAMPLES * nf + pending1.len(),
                        pending1.len() < BLOCK_SAMPLES,
                ;
            }
        }
    }

    /// Codes the last partial frame, if any, and writes the terminator.
    fn write_tail(&mut self)
        requires
            old(self).wf(),
        ensures
            ({
                let k = old(self).coeffs;
                let ch = old(self).user@.channels as nat;
                let fed = old(self).fed@;
                let nf = fed.len() / BLOCK_SAMPLES as nat;
                let frames = encode_frames(k, ch, fed, nf);
                let rest = fed.subrange(BLOCK_SAMPLES * nf, fed.len() as int);
                let tail = if rest.len() == 0 {
                    Seq::empty()
                } else {
                    encode_frame(k, frames.1, rest, ch).0
                };
                final(self).inner@ == Seq::new(old(self).header_size as nat, |i: int| 0u8) + frames.0
                    + tail + terminator()
            }),
            final(self).header_size == old(self).header_size,
    {
        let ghost k = self.coeffs;
        let ghost ch = self.user@.channels as nat;
        let ghost fed = self.fed@;
        let ghost nf = fed.len() / BLOCK_SAMPLES as nat;
        let ghost rest = fed.subrange(BLOCK_SAMPLES * nf, fed.len() as int);
        if !self.current_frame.is_empty(Ghost(k), Ghost(ch)) {
            self.current_frame.to_writer(&mut self.inner, self.coeffs, Ghost(ch), Ghost(rest));
        } else {
            assert(rest.len() == 0);
        }
        let ghost body = self.inner@;
        write_u16(&mut self.inner, 0x8001);
        write_u16(&mut self.inner, 0x000e);
        let mut z: usize = 0;
        while z < 14
            invariant
                z <= 14,
                self.header_size == old(self).header_size,
                self.inner@ =~= body + u16_be(0x8001) + u16_be(0x000e) + Seq::new(z as nat, |i: int| 0u8),
            decreases 14 - z,
        {
            self.inner.push(0);
            z = z + 1;
        }
        assert(self.inner@ =~= body + terminator());
    }

    /// The header that describes what was encoded.
    fn header(&self) -> (h: AdxHeader)
        requires
            self.wf(),
        ensures
            h == encoded_header(self.user@, self.fed@.len() as int),
    {
        proof {
            lemma_loop_bytes_fit(self.user@);
        }
        let channels = self.spec.channels;
        let loop_info = match self.spec.loop_info {
            Some(li) => {
                let begin = sample_to_byte_exec(li.start_sample, channels) + self.header_size as u64;
                let end = sample_to_byte_exec(li.end_sample, channels) + self.header_size as u64;
                Some(AdxVersion3LoopInfo {
                    alignment_samples: self.alignment_samples as u16,
                    enabled_short: 1,
                    enabled_int: 1,
                    begin_sample: li.start_sample,
                    begin_byte: begin as u32,
                    end_sample: li.end_sample,
                    end_byte: end as u32,
                })
            },
            None => None,
        };
        AdxHeader {
            encoding: AdxEncoding::Standard,
            block_size: BLOCK_BYTES as u8,
            sample_bitdepth: 4,
            channel_count: channels as u8,
            sample_rate: self.spec.sample_rate,
            total_samples: self.samples_encoded as u32,
            highpass_frequency: HIGHPASS_FREQ as u16,
            version: AdxVersion::Version3(loop_info),
            flags: 0,
        }
    }

    /// Codes the last partial frame, padded with zero samples, writes the terminator, and
    /// puts the header in front; hands back the whole file.
    pub fn finish(self) -> (r: Vec<u8>)
        requires
            self.wf(),
        ensures
            r@ == standard_file(self.coeffs(), self.user_spec(), self.fed()),
    {
        let header = self.header();
        let header_size = self.header_size;
        proof {
            lemma_loop_bytes_fit(self.user@);
            crate::adx_header::lemma_header_len(header, header_size as int);
        }
        let mut this = self;
        this.write_tail();
        let mut head: Vec<u8> = Vec::new();
        header.to_writer(&mut head, header_size);
        let r = overwrite_front(this.inner, &head);
        assert(r@ =~= standard_file(self.coeffs(), self.user_spec(), self.fed()));
        r
    }
}

/// `inner` with its first bytes replaced by `head`.
fn overwrite_front(inner: Vec<u8>, head: &Vec<u8>) -> (r: Vec<u8>)
    requires
        head@.len() <= inner@.len(),
    ensures
        r@ == head@ + inner@.skip(head@.len() as int),
{
    let mut out = inner;
    let ghost tail = out@.skip(head@.len() as int);
    let mut i: usize = 0;
    while i < head.len()
        invariant
            i <= head@.len() <= out@.len(),
            out@.skip(head@.len() as int) == tail,
            out@.take(i as int) == head@.take(i as int),
        decreases head@.len() - i,
    {
        out.set(i, head[i]);
        i = i + 1;
        assert(out@.take(i as int) =~= head@.take(i as int));
        assert(out@.skip(head@.len() as int) =~= tail);
    }
    assert(out@ =~= out@.take(head@.len() as int) + out@.skip(head@.len() as int));
    assert(head@.take(head@.len() as int) =~= head@);
    out
}

/// Every residual code lies in `[-8, 7]`.
pub proof fn lemma_codes_in_range(k: Coeffs, scale: int, p1: i16, p2: i16, s: Seq<i16>)
    ensures
        forall|i: int| 0 <= i < encode_run(k, scale, p1, p2, s).0.len() ==> -8 <= #[trigger] encode_run(k, scale, p1, p2, s).0[i] <= 7,
    decreases s.len(),
{
    if s.len() > 0 {
        lemma_codes_in_range(k, scale, p1, p2, s.drop_last());
        let prev = encode_run(k, scale, p1, p2, s.drop_last());
        let h = history(p1, p2, prev.1);
        let nib = quantize(residual(k, h.0, h.1, s.last()), scale);
        assert(encode_run(k, scale, p1, p2, s).0 == prev.0.push(nib));
        assert(-8 <= nib <= 7);
    }
}

/// The running extremes stay within the residual bound.
pub proof fn lemma_res_bounds(k: Coeffs, p1: i16, p2: i16, s: Seq<i16>, n: nat)
    requires
        coeffs_ok(k),
        n <= s.len(),
    ensures
        -0x2_0000 <= res_min(k, p1, p2, s, n) <= 0,
        0 <= res_max(k, p1, p2, s, n) <= 0x2_0000,
    decreases n,
{
    if n > 0 {
        lemma_res_bounds(k, p1, p2, s, (n - 1) as nat);
        let h = history(p1, p2, s.take(n - 1));
        lemma_residual_bound(k, h.0, h.1, s[n - 1]);
    }
}

/// `delta / scale` rounded to nearest, halves away from zero, before clipping.
pub open spec fn rounded(delta: int, scale: int) -> int {
    let h = scale / 2;
    if delta > 0 {
        (delta + h) / scale
    } else {
        -((-delta + h) / scale)
    }
}

/// A sample whose code needs no clipping, and whose rebuilt value needs no clamping, is
/// rebuilt within `scale` of the input sample.
pub proof fn lemma_unclipped_error(k: Coeffs, p1: i16, p2: i16, s: i16, scale: int)
    requires
        scale >= 1,
        -8 <= rounded(residual(k, p1, p2, s), scale) <= 7,
        -0x8000 < (rounded(residual(k, p1, p2, s), scale) * 0x1000 * scale + k.0 * p1 + k.1 * p2)
            / 0x1000 < 0x7fff,
    ensures
        -scale <= simulate(k, p1, p2, scale, quantize(residual(k, p1, p2, s), scale)) - s <= scale,
{
    let pp = k.0 * p1 + k.1 * p2;
    let d = residual(k, p1, p2, s);
    let u = rounded(d, scale);
    let h = scale / 2;
    assert(quantize(d, scale) == u);
    let q = pp / 0x1000;
    let r = pp % 0x1000;
    assert(pp == 0x1000 * q + r && 0 <= r < 0x1000) by (nonlinear_arith)
        requires
            q == pp / 0x1000,
            r == pp % 0x1000,
    ;
    assert(s * 0x1000 - k.0 * p1 - k.1 * p2 == 0x1000 * (s - q) - r);
    assert(d == (if r > 0 { s - q - 1 } else { s - q })) by (nonlinear_arith)
        requires
            d == (0x1000 * (s - q) - r) / 0x1000,
            0 <= r < 0x1000,
    ;
    let x = (u * 0x1000 * scale + pp) / 0x1000;
    assert(u * 0x1000 * scale + pp == 0x1000 * (u * scale + q) + r) by (nonlinear_arith)
        requires
            pp == 0x1000 * q + r,
    ;
    assert(x == u * scale + q) by (nonlinear_arith)
        requires
            x == (0x1000 * (u * scale + q) + r) / 0x1000,
            0 <= r < 0x1000,
    ;
    assert(0 <= h <= scale - h && h + 1 <= scale) by (nonlinear_arith)
        requires
            h == scale / 2,
            scale >= 1,
    ;
    if d > 0 {
        let t = (d + h) / scale;
        assert(t * scale <= d + h < t * scale + scale) by (nonlinear_arith)
            requires
                t == (d + h) / scale,
                scale >= 1,
        ;
        assert(u * scale == t * scale);
    } else {
        let t = (-d + h) / scale;
        assert(t * scale <= -d + h < t * scale + scale) by (nonlinear_arith)
            requires
                t == (-d + h) / scale,
                scale >= 1,
        ;
        assert(u * scale == -(t * scale)) by (nonlinear_arith)
            requires
                u == -t,
        ;
    }
    assert(simulate(k, p1, p2, scale, u) == x);
}

/// With a loop, the aligned loop start falls on a block boundary, and its byte offset is the
/// first byte of the frame that holds it, so a decoder that jumps there starts that frame.
pub proof fn lemma_loop_start_on_frame(spec: AdxSpec)
    requires
        encoder_spec_ok(spec),
        spec.loop_info is Some,
    ensures
        aligned_loop(spec)->Some_0.start_sample % 32 == 0,
        sample_to_byte(aligned_loop(spec)->Some_0.start_sample as int, spec.channels as int)
            == aligned_loop(spec)->Some_0.start_sample / 32 * BLOCK_BYTES * spec.channels,
{
    let li = spec.loop_info->Some_0;
    let a = alignment_of(spec);
    let st = li.start_sample + a;
    assert(st % 32 == 0) by (nonlinear_arith)
        requires
            a == (32 - li.start_sample % 32) % 32,
            st == li.start_sample + a,
            li.start_sample >= 0,
    ;
    assert((st + 31) / 32 == st / 32) by (nonlinear_arith)
        requires
            st % 32 == 0,
            st >= 0,
    ;
}

} // verus!
