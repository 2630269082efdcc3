use vstd::prelude::*;

use crate::bitio::{lemma_pow2_mono, pow2, pow2_exec};
use crate::fixed::{asr12, clamp16, clamp_i16};

verus! {

/// The two predictor coefficients, in 12-bit fixed point.
pub type Coeffs = (i32, i32);

/// The range that the coefficient generator yields: `k1 = round(2c * 4096)` and
/// `k2 = round(-c^2 * 4096)` for some `0 <= c <= 1`.
pub open spec fn coeffs_ok(k: Coeffs) -> bool {
    0 <= k.0 <= 0x2000 && -0x1000 <= k.1 <= 0
}

/// The prediction from the last two samples: `(k1 * p1 + k2 * p2) >> 12`.
pub open spec fn predict(k: Coeffs, p1: i16, p2: i16) -> int {
    (k.0 * p1 + k.1 * p2) / 0x1000
}

/// The sample that the decoder reconstructs from a residual `r` at scale `scale`.
pub open spec fn decode_sample(k: Coeffs, p1: i16, p2: i16, scale: int, r: int) -> i16 {
    clamp16(predict(k, p1, p2) + scale * r)
}

/// The history `(p1, p2)` after the samples `r`, starting from `(p1, p2)`.
pub open spec fn history(p1: i16, p2: i16, r: Seq<i16>) -> (i16, i16) {
    if r.len() == 0 {
        (p1, p2)
    } else if r.len() == 1 {
        (r[0], p1)
    } else {
        (r[r.len() - 1], r[r.len() - 2])
    }
}

/// The samples that the decoder reconstructs from the residuals `rs`, at one scale, from
/// the history `(p1, p2)`.
pub open spec fn decode_run(k: Coeffs, scale: int, p1: i16, p2: i16, rs: Seq<int>) -> Seq<i16>
    decreases rs.len(),
{
    if rs.len() == 0 {
        Seq::empty()
    } else {
        let prev = decode_run(k, scale, p1, p2, rs.drop_last());
        let h = history(p1, p2, prev);
        prev.push(decode_sample(k, h.0, h.1, scale, rs.last()))
    }
}

/// Pushing a sample moves the history on by it.
pub proof fn lemma_history_push(p1: i16, p2: i16, r: Seq<i16>, x: i16)
    ensures
        history(p1, p2, r.push(x)) == (x, history(p1, p2, r).0),
{
}

pub proof fn lemma_decode_run_len(k: Coeffs, scale: int, p1: i16, p2: i16, rs: Seq<int>)
    ensures
        decode_run(k, scale, p1, p2, rs).len() == rs.len(),
    decreases rs.len(),
{
    if rs.len() > 0 {
        lemma_decode_run_len(k, scale, p1, p2, rs.drop_last());
    }
}

/// The value of the low `bits` bits of `num` as a two's-complement number.
pub open spec fn sext(num: int, bits: nat) -> int {
    if num >= pow2((bits - 1) as nat) {
        num - pow2(bits)
    } else {
        num
    }
}

/// Reads `num`, a `bits`-wide field, as a signed number.
pub fn sign_extend(num: u32, bits: u32) -> (r: i32)
    requires
        1 <= bits <= 32,
        num < pow2(bits as nat),
    ensures
        r as int == sext(num as int, bits as nat),
{
    proof {
        lemma_pow2_mono((bits - 1) as nat, 31);
        lemma_pow2_mono(bits as nat, 32);
        crate::bitio::lemma_pow2_32_pub();
        assert(pow2(bits as nat) == 2 * pow2((bits - 1) as nat));
        assert(pow2(31) * 2 == pow2(32));
    }
    let half: u64 = pow2_exec(bits - 1);
    let full: i64 = (half * 2) as i64;
    if num as u64 >= half {
        (num as i64 - full) as i32
    } else {
        num as i32
    }
}

/// `k1 * p1 + k2 * p2`, exactly.
pub fn prediction_fp(k: Coeffs, p1: i16, p2: i16) -> (r: i64)
    ensures
        r == k.0 * p1 + k.1 * p2,
        -0x8000_0000_0000 <= r <= 0x8000_0000_0000,
{
    proof {
        lemma_product_bound(k.0 as int, p1 as int);
        lemma_product_bound(k.1 as int, p2 as int);
    }
    k.0 as i64 * p1 as i64 + k.1 as i64 * p2 as i64
}

proof fn lemma_product_bound(a: int, b: int)
    requires
        -0x8000_0000 <= a < 0x8000_0000,
        -0x8000 <= b < 0x8000,
    ensures
        -0x4000_0000_0000 <= a * b <= 0x4000_0000_0000,
{
    assert(-0x4000_0000_0000 <= a * b <= 0x4000_0000_0000) by (nonlinear_arith)
        requires
            -0x8000_0000 <= a < 0x8000_0000,
            -0x8000 <= b < 0x8000,
    ;
}

/// Reconstructs one sample, as the decoder does: the prediction plus the scaled residual,
/// clamped to `i16`.
pub fn reconstruct(k: Coeffs, p1: i16, p2: i16, scale: i64, r: i64) -> (s: i16)
    requires
        0 <= scale <= 0xffff,
        -0x8000_0000 <= r <= 0x8000_0000,
    ensures
        s == decode_sample(k, p1, p2, scale as int, r as int),
{
    let prediction = asr12(prediction_fp(k, p1, p2));
    assert(-0x8000_0000_0000 <= prediction <= 0x8000_0000_0000);
    assert(-0x1_0000_0000_0000 <= scale * r <= 0x1_0000_0000_0000) by (nonlinear_arith)
        requires
            0 <= scale <= 0xffff,
            -0x8000_0000 <= r <= 0x8000_0000,
    ;
    let delta = scale * r;
    clamp_i16(prediction + delta)
}

} // verus!
