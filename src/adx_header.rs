use vstd::prelude::*;

use crate::byte_io::{
    be16_at, be32_at, lemma_be_len, read_u16_at, read_u32_at, u16_be, u32_be, write_u16, write_u32,
    lemma_u16_be, lemma_u32_be,
};
use crate::error::{HeaderFault, RadxError, RadxResult};

verus! {

pub const ADX_MAGIC: u16 = 0x8000;

/// The header length that the encoders use when no loop forces another.
pub const ADX_HEADER_LEN: usize = 0x32;

/// Length of the fixed part of the header, up to and including the flags byte.
pub const FIXED_LEN: usize = 0x14;

/// Length of the fixed part followed by the version 3 loop block.
pub const LOOP_END: usize = 0x2c;

/// Offset of the on-disk `data_offset` from which a version 3 header carries a loop block.
pub const LOOP_OFFSET_MIN: u16 = 40;

#[derive(Clone, Copy, Debug, PartialEq, Eq, Structural)]
pub struct AdxVersion3LoopInfo {
    pub alignment_samples: u16,
    pub enabled_short: u16,
    pub enabled_int: u32,
    pub begin_sample: u32,
    pub begin_byte: u32,
    pub end_sample: u32,
    pub end_byte: u32,
}

#[derive(Clone, Copy, Debug, PartialEq, Eq, Structural)]
pub enum AdxVersion {
    Version3(Option<AdxVersion3LoopInfo>),
    Version4,
    /// Version 4 without looping support
    Version5,
    /// Seen in voice archives
    Version6,
}

#[derive(Clone, Copy, Debug, PartialEq, Eq, Structural)]
pub enum AdxEncoding {
    Preset,
    Standard,
    Exponential,
    Ahx,
}

#[derive(Clone, Copy, Debug, PartialEq, Eq, Structural)]
pub struct AdxHeader {
    pub encoding: AdxEncoding,
    pub block_size: u8,
    pub sample_bitdepth: u8,
    pub channel_count: u8,
    pub sample_rate: u32,
    pub total_samples: u32,
    pub highpass_frequency: u16,
    pub version: AdxVersion,
    pub flags: u8,
}

/// The encoding that a header byte names, if any.
pub open spec fn encoding_of(b: u8) -> Option<AdxEncoding> {
    if b == 0x02 {
        Some(AdxEncoding::Preset)
    } else if b == 0x03 {
        Some(AdxEncoding::Standard)
    } else if b == 0x04 {
        Some(AdxEncoding::Exponential)
    } else if b == 0x10 || b == 0x11 {
        Some(AdxEncoding::Ahx)
    } else {
        None
    }
}

/// The byte written for an encoding.
pub open spec fn encoding_byte(e: AdxEncoding) -> u8 {
    match e {
        AdxEncoding::Preset => 0x02,
        AdxEncoding::Standard => 0x03,
        AdxEncoding::Exponential => 0x04,
        AdxEncoding::Ahx => 0x10,
    }
}

/// The byte written for a version.
pub open spec fn version_byte(v: AdxVersion) -> u8 {
    match v {
        AdxVersion::Version3(_) => 0x03,
        AdxVersion::Version4 => 0x04,
        AdxVersion::Version5 => 0x05,
        AdxVersion::Version6 => 0x06,
    }
}

/// The trailing copyright magic, `(c)CRI` in ASCII.
pub open spec fn copyright() -> Seq<u8> {
    seq![0x28u8, 0x63u8, 0x29u8, 0x43u8, 0x52u8, 0x49u8]
}

/// The loop block of a version 3 header, as stored in bytes 0x14..0x2c.
pub open spec fn loop_info_at(s: Seq<u8>) -> AdxVersion3LoopInfo {
    AdxVersion3LoopInfo {
        alignment_samples: be16_at(s, 0x14) as u16,
        enabled_short: be16_at(s, 0x16) as u16,
        enabled_int: be32_at(s, 0x18) as u32,
        begin_sample: be32_at(s, 0x1c) as u32,
        begin_byte: be32_at(s, 0x20) as u32,
        end_sample: be32_at(s, 0x24) as u32,
        end_byte: be32_at(s, 0x28) as u32,
    }
}

/// The on-disk `data_offset`: the offset from byte 4 to the byte past the copyright magic.
pub open spec fn data_offset_of(s: Seq<u8>) -> int {
    be16_at(s, 2)
}

/// The header that a byte stream starts with, read field by field in stream order; the
/// first field that cannot be read, or that holds a refused value, gives the error.
pub open spec fn parse_header(s: Seq<u8>) -> RadxResult<AdxHeader> {
    if s.len() < 2 {
        Err(RadxError::IoError)
    } else if be16_at(s, 0) != ADX_MAGIC {
        Err(RadxError::BadAdxHeader(HeaderFault::BadMagic))
    } else if s.len() < 5 {
        Err(RadxError::IoError)
    } else if encoding_of(s[4]) is None {
        Err(RadxError::BadAdxHeader(HeaderFault::BadEncoding))
    } else if s.len() < FIXED_LEN {
        Err(RadxError::IoError)
    } else if !(0x03 <= s[0x12] <= 0x06) {
        Err(RadxError::BadAdxHeader(HeaderFault::BadVersion))
    } else {
        let off = data_offset_of(s);
        let has_loop = s[0x12] == 0x03 && off >= LOOP_OFFSET_MIN;
        if has_loop && s.len() < LOOP_END {
            Err(RadxError::IoError)
        } else if off < 2 || off + 4 > s.len() {
            Err(RadxError::IoError)
        } else if s.subrange(off - 2, off + 4) != copyright() {
            Err(RadxError::BadAdxHeader(HeaderFault::BadCopyright))
        } else {
            let version = if s[0x12] == 0x03 {
                AdxVersion::Version3(if has_loop { Some(loop_info_at(s)) } else { None })
            } else if s[0x12] == 0x04 {
                AdxVersion::Version4
            } else if s[0x12] == 0x05 {
                AdxVersion::Version5
            } else {
                AdxVersion::Version6
            };
            Ok(AdxHeader {
                encoding: encoding_of(s[4])->Some_0,
                block_size: s[5],
                sample_bitdepth: s[6],
                channel_count: s[7],
                sample_rate: be32_at(s, 8) as u32,
                total_samples: be32_at(s, 12) as u32,
                highpass_frequency: be16_at(s, 16) as u16,
                version,
                flags: s[0x13],
            })
        }
    }
}

/// Whether the header carries a loop block when written.
pub open spec fn writes_loop(h: AdxHeader) -> bool {
    h.version matches AdxVersion::Version3(Some(_))
}

/// The smallest header size that can hold `h`.
pub open spec fn min_size(h: AdxHeader) -> int {
    if writes_loop(h) {
        LOOP_END + 6
    } else {
        FIXED_LEN + 6
    }
}

/// The bytes of a loop block.
pub open spec fn loop_block(li: AdxVersion3LoopInfo) -> Seq<u8> {
    u16_be(li.alignment_samples) + u16_be(li.enabled_short) + u32_be(li.enabled_int) + u32_be(
        li.begin_sample,
    ) + u32_be(li.begin_byte) + u32_be(li.end_sample) + u32_be(li.end_byte)
}

/// The fixed 20-byte prefix of a header whose total size is `size`.
pub open spec fn fixed_bytes(h: AdxHeader, size: int) -> Seq<u8> {
    u16_be(ADX_MAGIC) + u16_be((size - 4) as u16) + seq![
        encoding_byte(h.encoding),
        h.block_size,
        h.sample_bitdepth,
        h.channel_count,
    ] + u32_be(h.sample_rate) + u32_be(h.total_samples) + u16_be(h.highpass_frequency) + seq![
        version_byte(h.version),
        h.flags,
    ]
}

/// The fixed prefix and, where there is one, the loop block.
pub open spec fn body_bytes(h: AdxHeader, size: int) -> Seq<u8> {
    match h.version {
        AdxVersion::Version3(Some(li)) => fixed_bytes(h, size) + loop_block(li),
        _ => fixed_bytes(h, size),
    }
}

/// The bytes of `h` written as a header of `size` bytes: the body, zero padding, then the
/// copyright magic.
pub open spec fn header_bytes(h: AdxHeader, size: int) -> Seq<u8> {
    body_bytes(h, size) + Seq::new((size - 6 - body_bytes(h, size).len()) as nat, |i: int| 0u8)
        + copyright()
}

impl AdxEncoding {
    fn from_u8(val: u8) -> (r: RadxResult<AdxEncoding>)
        ensures
            r == (match encoding_of(val) {
                Some(e) => Ok(e),
                None => Err(RadxError::BadAdxHeader(HeaderFault::BadEncoding)),
            }),
    {
        match val {
            0x02 => Ok(AdxEncoding::Preset),
            0x03 => Ok(AdxEncoding::Standard),
            0x04 => Ok(AdxEncoding::Exponential),
            0x10 | 0x11 => Ok(AdxEncoding::Ahx),
            _ => Err(RadxError::BadAdxHeader(HeaderFault::BadEncoding)),
        }
    }
}

impl From<AdxEncoding> for u8 {
    fn from(val: AdxEncoding) -> (r: u8)
        ensures
            r == encoding_byte(val),
    {
        match val {
            AdxEncoding::Preset => 0x02,
            AdxEncoding::Standard => 0x03,
            AdxEncoding::Exponential => 0x04,
            AdxEncoding::Ahx => 0x10,
        }
    }
}

impl vstd::std_specs::convert::FromSpecImpl<AdxEncoding> for u8 {
    open spec fn obeys_from_spec() -> bool {
        true
    }

    open spec fn from_spec(v: AdxEncoding) -> u8 {
        encoding_byte(v)
    }
}

impl From<AdxVersion> for u8 {
    fn from(val: AdxVersion) -> (r: u8)
        ensures
            r == version_byte(val),
    {
        match val {
            AdxVersion::Version3(_) => 0x03,
            AdxVersion::Version4 => 0x04,
            AdxVersion::Version5 => 0x05,
            AdxVersion::Version6 => 0x06,
        }
    }
}

impl vstd::std_specs::convert::FromSpecImpl<AdxVersion> for u8 {
    open spec fn obeys_from_spec() -> bool {
        true
    }

    open spec fn from_spec(v: AdxVersion) -> u8 {
        version_byte(v)
    }
}

impl AdxHeader {
    /// Parses the header at the start of `bytes`.
    pub fn read_header(bytes: &[u8]) -> (r: RadxResult<AdxHeader>)
        ensures
            r == parse_header(bytes@),
    {
        let s = Ghost(bytes@);
        if bytes.len() < 2 {
            return Err(RadxError::IoError);
        }
        let magic = read_u16_at(bytes, 0);
        if magic != ADX_MAGIC {
            return Err(RadxError::BadAdxHeader(HeaderFault::BadMagic));
        }
        if bytes.len() < 5 {
            return Err(RadxError::IoError);
        }
        let data_offset = read_u16_at(bytes, 2);
        let encoding = match AdxEncoding::from_u8(bytes[4]) {
            Ok(e) => e,
            Err(e) => return Err(e),
        };
        if bytes.len() < FIXED_LEN {
            return Err(RadxError::IoError);
        }
        let block_size = bytes[5];
        let sample_bitdepth = bytes[6];
        let channel_count = bytes[7];
        let sample_rate = read_u32_at(bytes, 8);
        let total_samples = read_u32_at(bytes, 12);
        let highpass_frequency = read_u16_at(bytes, 16);
        let version_byte = bytes[0x12];
        let flags = bytes[0x13];
        let version = match version_byte {
            0x03 => {
                let loop_info = if data_offset >= LOOP_OFFSET_MIN {
                    if bytes.len() < LOOP_END {
                        return Err(RadxError::IoError);
                    }
                    Some(
                        AdxVersion3LoopInfo {
                            alignment_samples: read_u16_at(bytes, 0x14),
                            enabled_short: read_u16_at(bytes, 0x16),
                            enabled_int: read_u32_at(bytes, 0x18),
                            begin_sample: read_u32_at(bytes, 0x1c),
                            begin_byte: read_u32_at(bytes, 0x20),
                            end_sample: read_u32_at(bytes, 0x24),
                            end_byte: read_u32_at(bytes, 0x28),
                        },
                    )
                } else {
                    None
                };
                AdxVersion::Version3(loop_info)
            },
            0x04 => AdxVersion::Version4,
            0x05 => AdxVersion::Version5,
            0x06 => AdxVersion::Version6,
            _ => return Err(RadxError::BadAdxHeader(HeaderFault::BadVersion)),
        };
        if data_offset < 2 || data_offset as usize + 4 > bytes.len() {
            return Err(RadxError::IoError);
        }
        let at = data_offset as usize - 2;
        let copyright_ok = bytes[at] == 0x28 && bytes[at + 1] == 0x63 && bytes[at + 2] == 0x29
            && bytes[at + 3] == 0x43 && bytes[at + 4] == 0x52 && bytes[at + 5] == 0x49;
        proof {
            let sub = s@.subrange(at as int, at + 6);
            if copyright_ok {
                assert(sub =~= copyright());
            } else {
                assert(sub != copyright()) by {
                    if sub == copyright() {
                        assert(sub[0] == copyright()[0] && sub[1] == copyright()[1]);
                        assert(sub[2] == copyright()[2] && sub[3] == copyright()[3]);
                        assert(sub[4] == copyright()[4] && sub[5] == copyright()[5]);
                    }
                }
            }
        }
        if !copyright_ok {
            return Err(RadxError::BadAdxHeader(HeaderFault::BadCopyright));
        }
        Ok(
            AdxHeader {
                encoding,
                block_size,
                sample_bitdepth,
                channel_count,
                sample_rate,
                total_samples,
                highpass_frequency,
                version,
                flags,
            },
        )
    }

    fn write_fixed(&self, writer: &mut Vec<u8>, header_size: usize)
        requires
            FIXED_LEN + 6 <= header_size <= 0xffff + 4,
        ensures
            final(writer)@ == old(writer)@ + fixed_bytes(*self, header_size as int),
    {
        let ghost start = writer@;
        write_u16(writer, ADX_MAGIC);
        write_u16(writer, (header_size - 4) as u16);
        writer.push(u8::from(self.encoding));
        writer.push(self.block_size);
        writer.push(self.sample_bitdepth);
        writer.push(self.channel_count);
        write_u32(writer, self.sample_rate);
        write_u32(writer, self.total_samples);
        write_u16(writer, self.highpass_frequency);
        writer.push(u8::from(self.version));
        writer.push(self.flags);
        assert(writer@ =~= start + fixed_bytes(*self, header_size as int));
    }

    /// Appends the header, `header_size` bytes long: the fixed fields, the loop block of a
    /// looping version 3 header, zero padding, and the copyright magic.
    pub fn to_writer(&self, writer: &mut Vec<u8>, header_size: usize)
        requires
            min_size(*self) <= header_size <= 0xffff + 4,
        ensures
            final(writer)@ == old(writer)@ + header_bytes(*self, header_size as int),
    {
        let ghost start = writer@;
        self.write_fixed(writer, header_size);
        let body_len: usize = match self.version {
            AdxVersion::Version3(Some(loop_info)) => {
                write_loop_block(writer, &loop_info);
                LOOP_END
            },
            _ => FIXED_LEN,
        };
        let ghost body = body_bytes(*self, header_size as int);
        proof {
            lemma_body_len(*self, header_size as int);
        }
        assert(writer@ =~= start + body);
        assert(body.len() == body_len);
        let mut i: usize = body_len;
        while i < header_size - 6
            invariant
                body_len <= i <= header_size - 6,
                header_size - 6 >= body_len,
                body.len() == body_len,
                writer@ =~= start + body + Seq::new((i - body_len) as nat, |j: int| 0u8),
            decreases header_size - 6 - i,
        {
            writer.push(0);
            i += 1;
        }
        writer.push(0x28);
        writer.push(0x63);
        writer.push(0x29);
        writer.push(0x43);
        writer.push(0x52);
        writer.push(0x49);
        assert(writer@ =~= start + header_bytes(*self, header_size as int));
    }
}

fn write_loop_block(writer: &mut Vec<u8>, loop_info: &AdxVersion3LoopInfo)
    ensures
        final(writer)@ == old(writer)@ + loop_block(*loop_info),
{
    let ghost start = writer@;
    write_u16(writer, loop_info.alignment_samples);
    write_u16(writer, loop_info.enabled_short);
    write_u32(writer, loop_info.enabled_int);
    write_u32(writer, loop_info.begin_sample);
    write_u32(writer, loop_info.begin_byte);
    write_u32(writer, loop_info.end_sample);
    write_u32(writer, loop_info.end_byte);
    assert(writer@ =~= start + loop_block(*loop_info));
}

/// The lengths of the parts of a written header.
pub proof fn lemma_body_len(h: AdxHeader, size: int)
    ensures
        fixed_bytes(h, size).len() == FIXED_LEN,
        body_bytes(h, size).len() == if writes_loop(h) { LOOP_END } else { FIXED_LEN },
{
    lemma_be_len(ADX_MAGIC, h.sample_rate);
    lemma_be_len(#[verifier::truncate] ((size - 4) as u16), h.total_samples);
    lemma_be_len(h.highpass_frequency, 0);
    match h.version {
        AdxVersion::Version3(Some(li)) => {
            lemma_be_len(li.alignment_samples, li.enabled_int);
            lemma_be_len(li.enabled_short, li.begin_sample);
            lemma_be_len(0, li.begin_byte);
            lemma_be_len(0, li.end_sample);
            lemma_be_len(0, li.end_byte);
            assert(loop_block(li).len() == 24);
            assert(body_bytes(h, size) == fixed_bytes(h, size) + loop_block(li));
        },
        _ => {},
    }
}

/// A header written with size `size` is `size` bytes long.
pub proof fn lemma_header_len(h: AdxHeader, size: int)
    requires
        min_size(h) <= size,
    ensures
        header_bytes(h, size).len() == size,
{
    lemma_body_len(h, size);
}

/// Whether writing `h` as a header of `size` bytes is defined and reads back as `h`: the
/// size holds the header and fits the 16-bit offset field, and a version 3 header without
/// loop information is short enough that no loop block is read from its padding.
pub open spec fn round_trips(h: AdxHeader, size: int) -> bool {
    &&& min_size(h) <= size <= 0xffff + 4
    &&& (h.version == AdxVersion::Version3(None) ==> size - 4 < LOOP_OFFSET_MIN)
}

proof fn lemma_fixed_fields(h: AdxHeader, size: int, s: Seq<u8>)
    requires
        FIXED_LEN <= s.len(),
        0 <= size - 4 <= 0xffff,
        forall|i: int| 0 <= i < FIXED_LEN ==> s[i] == fixed_bytes(h, size)[i],
    ensures
        be16_at(s, 0) == ADX_MAGIC,
        data_offset_of(s) == size - 4,
        s[4] == encoding_byte(h.encoding),
        s[5] == h.block_size,
        s[6] == h.sample_bitdepth,
        s[7] == h.channel_count,
        be32_at(s, 8) == h.sample_rate,
        be32_at(s, 12) == h.total_samples,
        be16_at(s, 16) == h.highpass_frequency,
        s[0x12] == version_byte(h.version),
        s[0x13] == h.flags,
{
    let fixed = fixed_bytes(h, size);
    lemma_u16_be(ADX_MAGIC);
    lemma_u16_be((size - 4) as u16);
    lemma_u32_be(h.sample_rate);
    lemma_u32_be(h.total_samples);
    lemma_u16_be(h.highpass_frequency);
    assert(be16_at(fixed, 0) == be16_at(u16_be(ADX_MAGIC), 0));
    assert(be16_at(fixed, 2) == be16_at(u16_be((size - 4) as u16), 0));
    assert(be32_at(fixed, 8) == be32_at(u32_be(h.sample_rate), 0));
    assert(be32_at(fixed, 12) == be32_at(u32_be(h.total_samples), 0));
    assert(be16_at(fixed, 16) == be16_at(u16_be(h.highpass_frequency), 0));
    assert(be16_at(s, 0) == be16_at(fixed, 0));
    assert(be16_at(s, 2) == be16_at(fixed, 2));
    assert(be32_at(s, 8) == be32_at(fixed, 8));
    assert(be32_at(s, 12) == be32_at(fixed, 12));
    assert(be16_at(s, 16) == be16_at(fixed, 16));
}

proof fn lemma_loop_fields(li: AdxVersion3LoopInfo, s: Seq<u8>)
    requires
        LOOP_END <= s.len(),
        forall|i: int| 0 <= i < 24 ==> s[FIXED_LEN + i] == #[trigger] loop_block(li)[i],
    ensures
        loop_info_at(s) == li,
{
    let lb = loop_block(li);
    lemma_u16_be(li.alignment_samples);
    lemma_u16_be(li.enabled_short);
    lemma_u32_be(li.enabled_int);
    lemma_u32_be(li.begin_sample);
    lemma_u32_be(li.begin_byte);
    lemma_u32_be(li.end_sample);
    lemma_u32_be(li.end_byte);
    assert(be16_at(lb, 0) == li.alignment_samples);
    assert(be16_at(lb, 2) == li.enabled_short);
    assert(be32_at(lb, 4) == li.enabled_int);
    assert(be32_at(lb, 8) == li.begin_sample);
    assert(be32_at(lb, 12) == li.begin_byte);
    assert(be32_at(lb, 16) == li.end_sample);
    assert(be32_at(lb, 20) == li.end_byte);
    assert(s[0x14] == lb[0] && s[0x15] == lb[1] && s[0x16] == lb[2] && s[0x17] == lb[3]);
    assert(s[0x18] == lb[4] && s[0x19] == lb[5] && s[0x1a] == lb[6] && s[0x1b] == lb[7]);
    assert(s[0x1c] == lb[8] && s[0x1d] == lb[9] && s[0x1e] == lb[10] && s[0x1f] == lb[11]);
    assert(s[0x20] == lb[12] && s[0x21] == lb[13] && s[0x22] == lb[14] && s[0x23] == lb[15]);
    assert(s[0x24] == lb[16] && s[0x25] == lb[17] && s[0x26] == lb[18] && s[0x27] == lb[19]);
    assert(s[0x28] == lb[20] && s[0x29] == lb[21] && s[0x2a] == lb[22] && s[0x2b] == lb[23]);
}

/// Reading a written header gives back the header.
pub proof fn lemma_header_round_trip(h: AdxHeader, size: int)
    requires
        round_trips(h, size),
    ensures
        parse_header(header_bytes(h, size)) == Ok::<AdxHeader, RadxError>(h),
{
    let s = header_bytes(h, size);
    let body = body_bytes(h, size);
    let fixed = fixed_bytes(h, size);
    lemma_body_len(h, size);
    assert(s.len() == size);
    assert forall|i: int| 0 <= i < FIXED_LEN implies s[i] == fixed[i] by {
        assert(body[i] == fixed[i]);
    }
    lemma_fixed_fields(h, size, s);
    assert(s.subrange(size - 6, size) =~= copyright());
    match h.version {
        AdxVersion::Version3(Some(li)) => {
            assert forall|i: int| 0 <= i < 24 implies s[FIXED_LEN + i] == #[trigger] loop_block(
                li,
            )[i] by {
                assert(body[FIXED_LEN + i] == loop_block(li)[i]);
            }
            lemma_loop_fields(li, s);
        },
        _ => {},
    }
    assert(parse_header(s) =~= Ok::<AdxHeader, RadxError>(h));
}

} // verus!
