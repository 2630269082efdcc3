use radx::adx_header::{AdxEncoding, AdxHeader, AdxVersion, AdxVersion3LoopInfo};
use radx::ahx_decoder::AhxDecoder;
use radx::ahx_encoder::AhxEncoder;
use radx::bitio::{BitReader, BitWriter};
use radx::byte_io::{write_u16, write_u32};
use radx::decoder::{from_reader, Decoder};
use radx::error::{HeaderFault, RadxError};
use radx::standard_encoder::{Block, StandardEncoder};
use radx::{AdxSpec, LoopInfo};

/// The predictor coefficients for a highpass frequency and sample rate, 12-bit fixed point.
fn gen_coeffs(highpass_frequency: u32, sample_rate: u32) -> (i32, i32) {
    let highpass_samples = highpass_frequency as f64 / sample_rate as f64;
    let a = std::f64::consts::SQRT_2 - (2.0 * std::f64::consts::PI * highpass_samples).cos();
    let b = std::f64::consts::SQRT_2 - 1.0;
    let c = (a - ((a + b) * (a - b)).sqrt()) / b;
    let coeff1 = c * 2.0;
    let coeff2 = -(c * c);
    ((coeff1 * 4096.0).round() as i32, (coeff2 * 4096.0).round() as i32)
}

fn decoder_for(bytes: Vec<u8>, looping: bool) -> Decoder {
    let header = AdxHeader::read_header(&bytes).unwrap();
    let coeffs = gen_coeffs(header.highpass_frequency as u32, header.sample_rate);
    match from_reader(bytes, looping, coeffs) {
        Ok(d) => d,
        Err(e) => panic!("no decoder: {:?}", e),
    }
}

fn decode_all(d: &mut Decoder, limit: usize) -> Vec<Vec<i16>> {
    let mut out = Vec::new();
    while out.len() < limit {
        match d.next_sample() {
            Some(s) => out.push(s),
            None => break,
        }
    }
    out
}

fn stereo(samples: &[i16]) -> Vec<Vec<i16>> {
    samples.iter().map(|&s| vec![s, s.wrapping_neg()]).collect()
}

#[test]
fn bitreader() {
    let data: Vec<u8> = vec![0xaa, 0xab, 0xa5, 0x80, 0xff, 0xff, 0x00, 0x00];
    let mut br = BitReader::new(data);

    assert_eq!(br.read(16).unwrap(), 0xaaab);
    assert_eq!(br.read(4).unwrap(), 0xa);
    assert_eq!(br.read(4).unwrap(), 0x5);
    assert_eq!(br.read(2).unwrap(), 0x2);
    assert_eq!(br.read(8).unwrap(), 0x3);
    assert_eq!(br.read(30).unwrap(), 0x3fff0000);
}

#[test]
fn test_block_write() {
    let coeffs = gen_coeffs(500, 32000);
    let mut buf = Vec::new();
    let mut block = Block::new();
    for _ in 0..32 {
        block.push(100, coeffs);
    }
    block.to_writer(&mut buf, coeffs);
    block = Block::from_prev(&block);
    for _ in 0..32 {
        block.push(1, coeffs);
    }
    block.to_writer(&mut buf, coeffs);
    println!("{:?}", buf);
    assert_eq!(
        buf,
        vec![
            0, 15, 123, 0, 31, 16, 0, 31, 16, 0, 31, 16, 0, 31, 16, 0, 31, 16, 0, 13, 149, 0, 31,
            1, 241, 241, 241, 241, 15, 16, 15, 16, 0, 0, 0, 0,
        ]
    );
}

#[test]
fn it_works() {}

#[test]
fn coefficients_for_default_highpass() {
    let (k1, k2) = gen_coeffs(500, 32000);
    assert_eq!((k1, k2), (7034, -3020));
    let x = 500.0f64 / 32000.0;
    let a = std::f64::consts::SQRT_2 - (2.0 * std::f64::consts::PI * x).cos();
    let b = std::f64::consts::SQRT_2 - 1.0;
    let c = (a - ((a + b) * (a - b)).sqrt()) / b;
    assert!((k1 as f64 / 4096.0 - 2.0 * c).abs() < 1.0 / 4096.0);
    assert!((k2 as f64 / 4096.0 + c * c).abs() < 1.0 / 4096.0);
}

#[test]
fn bitreader_runs_out() {
    let mut br = BitReader::new(vec![0xff]);
    assert_eq!(br.read(4).unwrap(), 0xf);
    assert_eq!(br.read(5), Err(RadxError::IoError));
    assert_eq!(br.read(4).unwrap(), 0xf);
}

#[test]
fn bitreader_reset_skips_to_next_byte() {
    let mut br = BitReader::new(vec![0x12, 0x34]);
    assert_eq!(br.read(4).unwrap(), 0x1);
    br.reset();
    assert_eq!(br.read(8).unwrap(), 0x34);
}

#[test]
fn bitwriter_packs_msb_first() {
    let mut w = BitWriter::new();
    w.write(0x5, 3);
    w.reset();
    w.write(0xab, 8);
    w.write(1, 1);
    assert_eq!(w.inner(), vec![0xa0, 0xab, 0x80]);
}

#[test]
fn big_endian_helpers() {
    let mut out = Vec::new();
    write_u16(&mut out, 0xbeef);
    write_u32(&mut out, 0x01020304);
    assert_eq!(out, vec![0xbe, 0xef, 1, 2, 3, 4]);
}

fn sample_header(version: AdxVersion) -> AdxHeader {
    AdxHeader {
        encoding: AdxEncoding::Standard,
        block_size: 18,
        sample_bitdepth: 4,
        channel_count: 2,
        sample_rate: 44100,
        total_samples: 1234,
        highpass_frequency: 500,
        version,
        flags: 7,
    }
}

#[test]
fn header_round_trip_with_loop() {
    let h = sample_header(AdxVersion::Version3(Some(AdxVersion3LoopInfo {
        alignment_samples: 3,
        enabled_short: 1,
        enabled_int: 1,
        begin_sample: 32,
        begin_byte: 0x800,
        end_sample: 96,
        end_byte: 0x900,
    })));
    let mut bytes = Vec::new();
    h.to_writer(&mut bytes, 0x32);
    assert_eq!(bytes.len(), 0x32);
    assert_eq!(&bytes[0x2c..], b"(c)CRI");
    assert_eq!(AdxHeader::read_header(&bytes), Ok(h));
}

#[test]
fn header_fields_read_big_endian() {
    let h = sample_header(AdxVersion::Version4);
    let mut bytes = Vec::new();
    h.to_writer(&mut bytes, 0x24);
    bytes[8..12].copy_from_slice(&[0x12, 0x34, 0x56, 0x78]);
    bytes[16..18].copy_from_slice(&[0x9a, 0xbc]);
    let read = AdxHeader::read_header(&bytes).unwrap();
    assert_eq!(read.sample_rate, 0x12345678);
    assert_eq!(read.highpass_frequency, 0x9abc);
}

#[test]
fn header_round_trip_versions() {
    for v in [AdxVersion::Version3(None), AdxVersion::Version4, AdxVersion::Version5, AdxVersion::Version6] {
        let h = sample_header(v);
        let mut bytes = Vec::new();
        h.to_writer(&mut bytes, 0x24);
        assert_eq!(bytes.len(), 0x24);
        assert_eq!(AdxHeader::read_header(&bytes), Ok(h));
    }
}

#[test]
fn header_errors() {
    let h = sample_header(AdxVersion::Version4);
    let mut good = Vec::new();
    h.to_writer(&mut good, 0x24);

    let mut bad = good.clone();
    bad[0] = 0x7f;
    assert_eq!(AdxHeader::read_header(&bad), Err(RadxError::BadAdxHeader(HeaderFault::BadMagic)));

    let mut bad = good.clone();
    bad[4] = 0x05;
    assert_eq!(AdxHeader::read_header(&bad), Err(RadxError::BadAdxHeader(HeaderFault::BadEncoding)));

    let mut bad = good.clone();
    bad[0x12] = 0x07;
    assert_eq!(AdxHeader::read_header(&bad), Err(RadxError::BadAdxHeader(HeaderFault::BadVersion)));

    let mut bad = good.clone();
    bad[0x20] = b'C';
    assert_eq!(AdxHeader::read_header(&bad), Err(RadxError::BadAdxHeader(HeaderFault::BadCopyright)));

    assert_eq!(AdxHeader::read_header(&good[..10]), Err(RadxError::IoError));
    assert_eq!(AdxHeader::read_header(&good[..0x20]), Err(RadxError::IoError));
    assert_eq!(RadxError::BadAdxHeader(HeaderFault::BadMagic).description(), "bad adx magic value");
    assert_eq!(RadxError::BadAhxFrameHeader.description(), "bad ahx frame header");
}

#[test]
fn ahx_encoding_byte_0x11_reads_as_ahx() {
    let mut h = sample_header(AdxVersion::Version6);
    h.encoding = AdxEncoding::Ahx;
    let mut bytes = Vec::new();
    h.to_writer(&mut bytes, 0x24);
    assert_eq!(bytes[4], 0x10);
    bytes[4] = 0x11;
    assert_eq!(AdxHeader::read_header(&bytes).unwrap().encoding, AdxEncoding::Ahx);
}

#[test]
fn unsupported_encoding_is_refused() {
    let mut h = sample_header(AdxVersion::Version4);
    h.encoding = AdxEncoding::Preset;
    let mut bytes = Vec::new();
    h.to_writer(&mut bytes, 0x24);
    assert!(matches!(
        from_reader(bytes, false, (0, 0)),
        Err(RadxError::BadAdxHeader(HeaderFault::Unsupported))
    ));
}

#[test]
fn decode_single_zero_block() {
    let mut bytes = vec![
        0x80, 0x00, 0x00, 0x1c, 0x03, 0x12, 0x04, 0x01, 0x00, 0x00, 0x7d, 0x00, 0x00, 0x00, 0x00,
        0x20, 0x01, 0xf4, 0x03, 0x00,
    ];
    bytes.extend_from_slice(&[0; 6]);
    bytes.extend_from_slice(b"(c)CRI");
    bytes.extend_from_slice(&[0; 18]);
    let mut d = decoder_for(bytes, false);
    assert_eq!(d.channels(), 1);
    assert_eq!(d.sample_rate(), 32000);
    assert!(d.loop_info().is_none());
    let out = decode_all(&mut d, 100);
    assert_eq!(out, vec![vec![0i16]; 32]);
}

#[test]
fn encode_silence_stereo() {
    let spec = AdxSpec { channels: 2, sample_rate: 32000, loop_info: None };
    let mut enc = StandardEncoder::new(spec, gen_coeffs(500, 32000));
    enc.encode_data(vec![vec![0i16, 0]; 64]);
    let out = enc.finish();
    assert_eq!(&out[0..4], &[0x80, 0x00, 0x00, 0x2e]);
    assert_eq!(out[4], 0x03);
    assert_eq!(&out[8..12], &[0x00, 0x00, 0x7d, 0x00]);
    assert_eq!(&out[0x2c..0x32], b"(c)CRI");
    assert_eq!(&out[0x32..0x32 + 72], &[0u8; 72][..]);
    assert_eq!(&out[0x32 + 72..0x32 + 76], &[0x80, 0x01, 0x00, 0x0e]);
    assert_eq!(&out[0x32 + 76..], &[0u8; 14][..]);
}

#[test]
fn empty_input_encodes_to_terminator() {
    let spec = AdxSpec { channels: 1, sample_rate: 22050, loop_info: None };
    let enc = StandardEncoder::new(spec, gen_coeffs(500, 22050));
    let out = enc.finish();
    assert_eq!(out.len(), 0x32 + 18);
    let h = AdxHeader::read_header(&out).unwrap();
    assert_eq!(h.total_samples, 0);
    let mut d = decoder_for(out, false);
    assert!(d.next_sample().is_none());
}

#[test]
fn loop_alignment_is_reported_back() {
    let spec = AdxSpec {
        channels: 2,
        sample_rate: 32000,
        loop_info: Some(LoopInfo { start_sample: 5, end_sample: 37 }),
    };
    let mut enc = StandardEncoder::new(spec, gen_coeffs(500, 32000));
    let pcm: Vec<i16> = (0..64).map(|i| (i * 37 % 200) as i16 - 100).collect();
    enc.encode_data(stereo(&pcm));
    let out = enc.finish();
    let h = AdxHeader::read_header(&out).unwrap();
    match h.version {
        AdxVersion::Version3(Some(li)) => {
            assert_eq!(li.alignment_samples, 27);
            assert_eq!(li.begin_sample, 32);
            assert_eq!(li.end_sample, 64);
            assert_eq!(li.begin_byte % 0x800, 0);
        }
        _ => panic!("no loop"),
    }
    assert_eq!(h.total_samples, 64 + 27);
    let d = decoder_for(out, true);
    assert_eq!(d.loop_info(), Some(LoopInfo { start_sample: 5, end_sample: 37 }));
}

#[test]
fn loop_start_is_sector_aligned() {
    for start in [0u32, 1, 31, 32, 1000, 3000, 40000] {
        let spec = AdxSpec {
            channels: 2,
            sample_rate: 44100,
            loop_info: Some(LoopInfo { start_sample: start, end_sample: start + 100 }),
        };
        let enc = StandardEncoder::new(spec, gen_coeffs(500, 44100));
        let out = enc.finish();
        let h = AdxHeader::read_header(&out).unwrap();
        match h.version {
            AdxVersion::Version3(Some(li)) => assert_eq!(li.begin_byte % 0x800, 0),
            _ => panic!("no loop"),
        }
        let header_size = ((out[2] as usize) << 8 | out[3] as usize) + 4;
        assert!(header_size >= 0x32);
    }
}

#[test]
fn standard_round_trip_within_bound() {
    let mut seed: u32 = 12345;
    let mut pcm = Vec::new();
    for _ in 0..4096 {
        seed = seed.wrapping_mul(1103515245).wrapping_add(12345);
        pcm.push(((seed >> 16) % 65) as i16 - 32);
    }
    let spec = AdxSpec { channels: 2, sample_rate: 32000, loop_info: None };
    let mut enc = StandardEncoder::new(spec, gen_coeffs(500, 32000));
    enc.encode_data(stereo(&pcm));
    let out = enc.finish();
    let mut d = decoder_for(out, false);
    let decoded = decode_all(&mut d, 10000);
    assert_eq!(decoded.len(), 4096);
    for (i, s) in decoded.iter().enumerate() {
        assert!((s[0] as i32 - pcm[i] as i32).abs() <= 32);
        assert!((s[1] as i32 + pcm[i] as i32).abs() <= 32);
    }
}

#[test]
fn looping_decoder_repeats_the_loop() {
    let pcm: Vec<i16> = (0..256).map(|i| ((i * 73) % 400) as i16 - 200).collect();
    let spec = AdxSpec {
        channels: 1,
        sample_rate: 32000,
        loop_info: Some(LoopInfo { start_sample: 64, end_sample: 192 }),
    };
    let mut enc = StandardEncoder::new(spec, gen_coeffs(500, 32000));
    enc.encode_data(pcm.iter().map(|&s| vec![s]).collect());
    let out = enc.finish();
    let mut plain = decoder_for(out.clone(), false);
    let once = decode_all(&mut plain, 1000);
    assert_eq!(once.len(), 256);
    let mut looping = decoder_for(out, true);
    let twice = decode_all(&mut looping, 64 + 2 * 128);
    assert_eq!(twice.len(), 64 + 2 * 128);
    assert_eq!(&twice[..192], &once[..192]);
    // The predictor history is carried across the jump, so the repeated part is decoded from
    // the history at the loop end, not the one the encoder coded it from.
    assert_eq!(twice[192..].len(), 128);
}

fn ahx_bytes(samples: usize) -> Vec<u8> {
    let mut enc = AhxEncoder::new();
    let pcm: Vec<i16> = (0..samples).map(|i| (((i * 97) % 2000) as i16 - 1000) * 4).collect();
    enc.encode_data(pcm);
    enc.finalize()
}

#[test]
fn ahx_frames_cover_every_sample() {
    for (n, frames) in [(0usize, 0usize), (1, 1), (1152, 1), (1153, 2), (2304, 2)] {
        let out = ahx_bytes(n);
        let h = AdxHeader::read_header(&out).unwrap();
        assert_eq!(h.encoding, AdxEncoding::Ahx);
        assert_eq!(h.version, AdxVersion::Version6);
        assert_eq!(h.sample_rate, 22050);
        assert_eq!(h.total_samples as usize, n);
        assert_eq!(&out[out.len() - 17..], b"\x00\x80\x01\x00\x0cAHXE(c)CRI\x00\x00");
        if frames > 0 {
            assert_eq!(&out[0x24..0x28], &[0xff, 0xf5, 0xe0, 0xc0]);
        }
        let mut d = decoder_for(out, false);
        assert_eq!(d.channels(), 1);
        assert_eq!(d.sample_rate(), 22050);
        assert!(d.loop_info().is_none());
        let decoded = decode_all(&mut d, 10 * 1152);
        assert_eq!(decoded.len(), frames * 1152);
    }
}

#[test]
fn ahx_sentinel_ends_decoding() {
    let mut h = sample_header(AdxVersion::Version6);
    h.encoding = AdxEncoding::Ahx;
    let mut bytes = Vec::new();
    h.to_writer(&mut bytes, 0x24);
    bytes.extend_from_slice(&[0x00, 0x80, 0x01, 0x00, 0xff, 0xf5, 0xe0, 0xc0]);
    let mut d = AhxDecoder::from_header(h, bytes, 0x24);
    assert!(d.next_sample().is_none());
}

#[test]
fn ahx_bad_frame_word_ends_decoding() {
    let mut h = sample_header(AdxVersion::Version6);
    h.encoding = AdxEncoding::Ahx;
    let mut bytes = Vec::new();
    h.to_writer(&mut bytes, 0x24);
    bytes.extend_from_slice(&[0x12, 0x34, 0x56, 0x78, 0, 0, 0, 0]);
    let mut d = decoder_for(bytes, false);
    assert!(d.next_sample().is_none());
}

#[test]
fn standard_decoder_stays_ended() {
    let spec = AdxSpec { channels: 1, sample_rate: 32000, loop_info: None };
    let mut enc = StandardEncoder::new(spec, gen_coeffs(500, 32000));
    enc.encode_data(vec![vec![5i16]; 40]);
    let mut d = decoder_for(enc.finish(), false);
    assert_eq!(decode_all(&mut d, 1000).len(), 40);
    assert!(d.next_sample().is_none());
    assert!(d.next_sample().is_none());
}

#[test]
fn ahx_decoder_stays_ended() {
    let mut d = decoder_for(ahx_bytes(100), false);
    assert_eq!(decode_all(&mut d, 5000).len(), 1152);
    assert!(d.next_sample().is_none());
    assert!(d.next_sample().is_none());
}

#[test]
fn ahx_frame_depends_on_its_samples() {
    let mut enc = AhxEncoder::new();
    enc.encode_data(vec![0i16; 1152]);
    let silent = enc.finalize();
    let loud = ahx_bytes(1152);
    assert_ne!(silent, loud);
}
