use vstd::prelude::*;

use crate::adpcm::Coeffs;
use crate::adx_header::{data_offset_of, parse_header, AdxEncoding, AdxHeader};
use crate::ahx_decoder::AhxDecoder;
use crate::byte_io::read_u16_at;
use crate::error::{HeaderFault, RadxError, RadxResult};
use crate::standard_decoder::{decodable, StandardDecoder};
use crate::{LoopInfo, Sample};

verus! {

/// A decoder of either codec behind one interface.
pub enum Decoder {
    Standard(StandardDecoder),
    Ahx(AhxDecoder),
}

/// What `from_reader` gives for a file: the header's error, a decoder for the codec it names,
/// or an error where that codec or its layout is not handled.
pub open spec fn decoder_kind(s: Seq<u8>) -> RadxResult<AdxEncoding> {
    match parse_header(s) {
        Err(e) => Err(e),
        Ok(h) => if h.encoding == AdxEncoding::Standard && decodable(h) {
            Ok(AdxEncoding::Standard)
        } else if h.encoding == AdxEncoding::Ahx {
            Ok(AdxEncoding::Ahx)
        } else {
            Err(RadxError::BadAdxHeader(HeaderFault::Unsupported))
        },
    }
}

impl Decoder {
    pub open spec fn wf(&self) -> bool {
        match self {
            Decoder::Standard(d) => d.wf(),
            Decoder::Ahx(d) => d.wf(),
        }
    }

    /// The header decoded from.
    pub open spec fn header(&self) -> AdxHeader {
        match self {
            Decoder::Standard(d) => d.header(),
            Decoder::Ahx(d) => d.header(),
        }
    }

    pub fn channels(&self) -> (r: u32)
        ensures
            r == (match self {
                Decoder::Standard(d) => d.header().channel_count as u32,
                Decoder::Ahx(_) => 1,
            }),
    {
        match self {
            Decoder::Standard(d) => d.channels(),
            Decoder::Ahx(d) => d.channels(),
        }
    }

    pub fn sample_rate(&self) -> (r: u32)
        ensures
            r == (match self {
                Decoder::Standard(d) => d.header().sample_rate,
                Decoder::Ahx(_) => crate::ahx::AHX_SAMPLE_RATE,
            }),
    {
        match self {
            Decoder::Standard(d) => d.sample_rate(),
            Decoder::Ahx(d) => d.sample_rate(),
        }
    }

    pub fn loop_info(&self) -> (r: Option<LoopInfo>)
        ensures
            r == (match self {
                Decoder::Standard(d) => crate::standard_decoder::reported_loop(d.header()),
                Decoder::Ahx(_) => None,
            }),
    {
        match self {
            Decoder::Standard(d) => d.loop_info(),
            Decoder::Ahx(d) => d.loop_info(),
        }
    }

    /// The next sample: one step of the decoder of the codec, as its `step` states.
    pub fn next_sample(&mut self) -> (r: Option<Sample>)
        requires
            old(self).wf(),
        ensures
            match (*old(self), *final(self)) {
                (Decoder::Standard(a), Decoder::Standard(b)) => StandardDecoder::step(a, b, r),
                (Decoder::Ahx(a), Decoder::Ahx(b)) => AhxDecoder::step(a, b, r),
                _ => false,
            },
    {
        match self {
            Decoder::Standard(d) => d.next_sample(),
            Decoder::Ahx(d) => d.next_sample(),
        }
    }
}

/// Reads the header of `bytes` and makes the decoder of the codec it names, over the data
/// that follows the header. `coeffs` are the Standard predictor's coefficients for the
/// header's highpass frequency and sample rate; `looping` follows a version 3 loop.
pub fn from_reader(bytes: Vec<u8>, looping: bool, coeffs: Coeffs) -> (r: RadxResult<Decoder>)
    ensures
        r is Err <==> decoder_kind(bytes@) is Err,
        r is Err ==> r->Err_0 == decoder_kind(bytes@)->Err_0,
        r is Ok ==> {
            let h = parse_header(bytes@)->Ok_0;
            let start = data_offset_of(bytes@) + 4;
            &&& r->Ok_0.wf()
            &&& (r->Ok_0 is Standard) == (decoder_kind(bytes@) == Ok::<AdxEncoding, RadxError>(AdxEncoding::Standard))
            &&& match r->Ok_0 {
                Decoder::Standard(d) => StandardDecoder::started(d, h, bytes@, start, looping, coeffs),
                Decoder::Ahx(d) => AhxDecoder::started(d, h, bytes@, start),
            }
        },
{
    let header = match AdxHeader::read_header(bytes.as_slice()) {
        Ok(h) => h,
        Err(e) => return Err(e),
    };
    let data_start = read_u16_at(bytes.as_slice(), 2) as usize + 4;
    match header.encoding {
        AdxEncoding::Standard => {
            if !standard_layout_ok(&header) {
                return Err(RadxError::BadAdxHeader(HeaderFault::Unsupported));
            }
            Ok(Decoder::Standard(StandardDecoder::from_header(header, bytes, data_start, looping, coeffs)))
        },
        AdxEncoding::Ahx => Ok(Decoder::Ahx(AhxDecoder::from_header(header, bytes, data_start))),
        _ => Err(RadxError::BadAdxHeader(HeaderFault::Unsupported)),
    }
}

/// Whether the Standard decoder handles the header's block layout.
pub fn standard_layout_ok(h: &AdxHeader) -> (r: bool)
    ensures
        r == decodable(*h),
{
    if h.sample_bitdepth < 1 || h.sample_bitdepth > 32 || h.block_size < 2 {
        return false;
    }
    let spb: u32 = ((h.block_size as u32 - 2) * 8) / h.sample_bitdepth as u32;
    let alignment: u32 = match h.version {
        crate::adx_header::AdxVersion::Version3(Some(li)) => li.alignment_samples as u32,
        _ => 0,
    };
    spb >= 1 && alignment < spb
}

} // verus!
