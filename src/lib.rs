/// The Standard codec's shared model: prediction, reconstruction, sign extension.
pub mod adpcm;
/// The AHX layout: subbands, the allocation schedule, scalefactor sharing (SCFSI).
pub mod ahx;
/// The AHX decoder: side information, dequantization, polyphase synthesis.
pub mod ahx_decoder;
/// The AHX encoder: polyphase analysis, scalefactors, quantization, frame bits.
pub mod ahx_encoder;
/// The fixed AHX tables.
pub mod ahx_tables;
/// The container header: parsing, writing, and their round trip.
pub mod adx_header;
/// Bit reading and writing, most significant bit first.
pub mod bitio;
/// Big-endian integers in bytes.
pub mod byte_io;
/// The decoder of either codec, chosen from the header.
pub mod decoder;
/// The error values.
pub mod error;
/// Fixed-point helpers: arithmetic shifts and clamping.
pub mod fixed;
/// The Standard ADPCM decoder, with looping.
pub mod standard_decoder;
/// The Standard ADPCM encoder: block coding, loop alignment, header back-patching.
pub mod standard_encoder;

use vstd::prelude::*;

verus! {

/// A loop over samples `[start_sample, end_sample)`.
#[derive(Clone, Copy, Debug, PartialEq, Eq, Structural)]
pub struct LoopInfo {
    pub start_sample: u32,
    pub end_sample: u32,
}

/// What an encoder is asked to produce.
#[derive(Clone, Copy, Debug, PartialEq, Eq, Structural)]
pub struct AdxSpec {
    pub channels: u32,
    pub sample_rate: u32,
    pub loop_info: Option<LoopInfo>,
}

/// One sample tick: one value per channel.
pub type Sample = Vec<i16>;

} // verus!
