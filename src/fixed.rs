use vstd::prelude::*;

verus! {

/// `x >> 12`, which rounds toward negative infinity.
pub fn asr12(x: i64) -> (r: i64)
    ensures
        r as int == x as int / 0x1000,
{
    let r = x >> 12u32;
    proof {
        assert(r * 0x1000 <= x && x - r * 0x1000 < 0x1000) by (bit_vector)
            requires
                r == x >> 12u32,
        ;
        assert(r as int == x as int / 0x1000) by (nonlinear_arith)
            requires
                r * 0x1000 <= x,
                x - r * 0x1000 < 0x1000,
        ;
    }
    r
}

/// `x >> 13`, which rounds toward negative infinity.
pub fn asr13(x: i64) -> (r: i64)
    ensures
        r as int == x as int / 0x2000,
{
    let r = x >> 13u32;
    proof {
        assert(r * 0x2000 <= x && x - r * 0x2000 < 0x2000) by (bit_vector)
            requires
                r == x >> 13u32,
        ;
        assert(r as int == x as int / 0x2000) by (nonlinear_arith)
            requires
                r * 0x2000 <= x,
                x - r * 0x2000 < 0x2000,
        ;
    }
    r
}

/// `x >> 15`, which rounds toward negative infinity.
pub fn asr15(x: i64) -> (r: i64)
    ensures
        r as int == x as int / 0x8000,
{
    let r = x >> 15u32;
    proof {
        assert(r * 0x8000 <= x && x - r * 0x8000 < 0x8000) by (bit_vector)
            requires
                r == x >> 15u32,
        ;
        assert(r as int == x as int / 0x8000) by (nonlinear_arith)
            requires
                r * 0x8000 <= x,
                x - r * 0x8000 < 0x8000,
        ;
    }
    r
}

/// `x >> 28`, which rounds toward negative infinity.
pub fn asr28(x: i64) -> (r: i64)
    ensures
        r as int == x as int / 0x1000_0000,
        -0x8_0000_0000 <= r < 0x8_0000_0000,
{
    let r = x >> 28u32;
    proof {
        assert(r * 0x1000_0000 <= x && x - r * 0x1000_0000 < 0x1000_0000) by (bit_vector)
            requires
                r == x >> 28u32,
        ;
        assert(r as int == x as int / 0x1000_0000) by (nonlinear_arith)
            requires
                r * 0x1000_0000 <= x,
                x - r * 0x1000_0000 < 0x1000_0000,
        ;
    }
    r
}

/// `x` limited to the range of `i16`.
pub open spec fn clamp16(x: int) -> i16 {
    if x >= 0x7fff {
        0x7fff
    } else if x <= -0x8000 {
        -0x8000i16
    } else {
        x as i16
    }
}

pub fn clamp_i16(x: i64) -> (r: i16)
    ensures
        r == clamp16(x as int),
{
    if x >= 0x7fff {
        0x7fff
    } else if x <= -0x8000 {
        -0x8000
    } else {
        x as i16
    }
}

} // verus!
