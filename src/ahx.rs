use vstd::prelude::*;

verus! {

/// Coded subbands; the top two of the 32 are always zero.
pub const SUBBANDS: usize = 30;

/// Samples in one frame: 3 parts of 4 granules of 3 samples in each of 32 subbands.
pub const FRAME_SAMPLES: usize = 1152;

/// The word that starts a frame.
pub const FRAME_SYNC: u32 = 0xfff5e0c0;

/// The word that ends the stream in place of a frame.
pub const END_SENTINEL: u32 = 0x00800100;

/// The only sample rate AHX carries.
pub const AHX_SAMPLE_RATE: u32 = 22050;

/// Width of the allocation field of subband `sb`.
pub open spec fn alloc_bits(sb: int) -> nat {
    if sb < 4 {
        4
    } else if sb < 11 {
        3
    } else {
        2
    }
}

pub fn alloc_bits_exec(sb: usize) -> (r: u32)
    ensures
        r == alloc_bits(sb as int),
{
    if sb < 4 {
        4
    } else if sb < 11 {
        3
    } else {
        2
    }
}

/// The allocation that the encoder gives subband `sb`.
pub open spec fn encoder_alloc(sb: int) -> nat {
    if sb < 4 {
        6
    } else if sb < 6 {
        4
    } else if sb < 12 {
        3
    } else {
        1
    }
}

/// How the three parts' scalefactors of a subband relate: 2 where all three are equal, 1 where
/// only the first two are, 3 where only the last two are, and 0 where none are.
pub open spec fn classify(a: int, b: int, c: int) -> int {
    if a == b {
        if b == c {
            2
        } else {
            1
        }
    } else {
        if b == c {
            3
        } else {
            0
        }
    }
}

/// The scalefactors that are sent for a subband, given its classification.
pub open spec fn sf_payload(scfsi: int, a: int, b: int, c: int) -> Seq<int> {
    if scfsi == 0 {
        seq![a, b, c]
    } else if scfsi == 2 {
        seq![a]
    } else {
        seq![a, c]
    }
}

/// The number of scalefactors sent under a classification.
pub open spec fn payload_len(scfsi: int) -> nat {
    if scfsi == 0 {
        3
    } else if scfsi == 2 {
        1
    } else {
        2
    }
}

/// The three parts' scalefactors that a classification and the values sent stand for.
pub open spec fn expand_sf(scfsi: int, p: Seq<int>) -> (int, int, int) {
    if scfsi == 0 {
        (p[0], p[1], p[2])
    } else if scfsi == 1 {
        (p[0], p[0], p[1])
    } else if scfsi == 2 {
        (p[0], p[0], p[0])
    } else {
        (p[0], p[1], p[1])
    }
}

/// The classification and the scalefactors sent under it stand for the three scalefactors
/// they were made from.
pub proof fn lemma_scfsi_round_trip(a: int, b: int, c: int)
    ensures
        0 <= classify(a, b, c) <= 3,
        sf_payload(classify(a, b, c), a, b, c).len() == payload_len(classify(a, b, c)),
        expand_sf(classify(a, b, c), sf_payload(classify(a, b, c), a, b, c)) == (a, b, c),
{
}

} // verus!
