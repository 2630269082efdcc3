use vstd::prelude::*;

use crate::adpcm::{decode_run, history, lemma_decode_run_len, lemma_history_push, reconstruct, sext, sign_extend, Coeffs};
use crate::adx_header::{AdxHeader, AdxVersion};
use crate::bitio::{bits_value, lemma_bits_value_split, lemma_nibbles_of_byte, pow2, BitReader};
use crate::byte_io::u16_be;
use crate::standard_encoder::{
    block_padded, block_scale, encode_block, encode_run, lemma_codes_in_range,
    lemma_encoder_decoder_agree, lemma_res_bounds, nibble_bytes, pack_nibbles, res_max, res_min,
};
use crate::adpcm::coeffs_ok;
use crate::error::{RadxError, RadxResult};
use crate::{LoopInfo, Sample};

verus! {

/// The scale value that marks the end of the stream.
pub const END_SCALE: u32 = 0x8001;

/// Samples per block for a block of `block_size` bytes of `depth`-bit residuals.
pub open spec fn samples_per_block(h: AdxHeader) -> int {
    (h.block_size - 2) * 8 / h.sample_bitdepth as int
}

/// The alignment samples that a header records.
pub open spec fn alignment_of_header(h: AdxHeader) -> int {
    match h.version {
        AdxVersion::Version3(Some(li)) => li.alignment_samples as int,
        _ => 0,
    }
}

/// The headers the Standard decoder handles: residuals of 1 to 32 bits, blocks that hold at
/// least one sample, and fewer alignment samples than a block holds.
pub open spec fn decodable(h: AdxHeader) -> bool {
    &&& 1 <= h.sample_bitdepth <= 32
    &&& h.block_size >= 2
    &&& samples_per_block(h) >= 1
    &&& alignment_of_header(h) < samples_per_block(h)
}

/// Bit position of channel `c`'s block in a frame that starts at bit `q`.
pub open spec fn block_at(q: int, c: int, spb: int, d: int) -> int {
    q + c * (16 + spb * d)
}

/// The `n` residuals of the block at bit `q`.
pub open spec fn block_residuals(s: Seq<u8>, q: int, d: nat, n: nat) -> Seq<int> {
    Seq::new(n, |i: int| sext(bits_value(s, q + 16 + i * d, d) as int, d))
}

/// The samples of the block at bit `q`, decoded from the history `(p1, p2)`.
pub open spec fn block_samples(k: Coeffs, s: Seq<u8>, q: int, d: nat, n: nat, p1: i16, p2: i16) -> Seq<i16> {
    decode_run(k, bits_value(s, q, 16) as int, p1, p2, block_residuals(s, q, d, n))
}

/// Whether the frame of `ch` blocks at bit `q` lies in the data and no block of it marks
/// the end of the stream.
pub open spec fn frame_ok(s: Seq<u8>, q: int, d: nat, spb: nat, ch: nat) -> bool {
    &&& q + ch * (16 + spb * d) <= s.len() * 8
    &&& forall|c: int| 0 <= c < ch ==> bits_value(s, #[trigger] block_at(q, c, spb as int, d as int), 16) != END_SCALE
}

struct LoopReadInfo {
    begin_byte: u32,
    begin_sample: u32,
    end_sample: u32,
}

/// The rows of a frame at bit `q`: one sample per channel for each of the `spb` ticks, each
/// channel decoded from its own history.
pub open spec fn frame_rows(
    k: Coeffs,
    s: Seq<u8>,
    q: int,
    d: nat,
    spb: nat,
    p1: Seq<i16>,
    p2: Seq<i16>,
) -> Seq<Seq<i16>> {
    Seq::new(
        spb,
        |i: int|
            Seq::new(
                p1.len(),
                |c: int| block_samples(k, s, block_at(q, c, spb as int, d as int), d, spb, p1[c], p2[c])[i],
            ),
    )
}

proof fn lemma_block_order(q: int, c: int, c2: int, spb: int, d: int)
    requires
        0 <= c < c2,
        spb >= 0,
        d >= 0,
    ensures
        block_at(q, c, spb, d) + 16 + spb * d <= block_at(q, c2, spb, d),
{
    assert(block_at(q, c, spb, d) + 16 + spb * d <= block_at(q, c2, spb, d)) by (nonlinear_arith)
        requires
            0 <= c < c2,
            spb >= 0,
            d >= 0,
    ;
}

proof fn lemma_block_inside(q: int, c: int, ch: int, spb: int, d: int, len: int)
    requires
        0 <= c < ch,
        spb >= 0,
        d >= 0,
        block_at(q, c, spb, d) + 16 + spb * d > len * 8,
    ensures
        q + ch * (16 + spb * d) > len * 8,
{
    assert(q + ch * (16 + spb * d) >= block_at(q, c, spb, d) + 16 + spb * d) by (nonlinear_arith)
        requires
            0 <= c < ch,
            spb >= 0,
            d >= 0,
    ;
}

/// A decoder of Standard ADX data.
pub struct StandardDecoder {
    inner: BitReader,
    header: AdxHeader,
    samples: Vec<Sample>,
    sample_vec_idx: usize,
    prev_sample: Vec<i16>,
    prev_prev_sample: Vec<i16>,
    coeffs: Coeffs,
    alignment_samples: u32,
    current_sample: u32,
    loop_info: Option<LoopReadInfo>,
    done: bool,
}

/// Reads one channel's block: its scale, then its residuals, decoded from the history
/// `(p1, p2)`. `None` where the scale marks the end of the stream.
fn decode_block(reader: &mut BitReader, k: Coeffs, p1: i16, p2: i16, d: u32, spb: usize) -> (r:
    RadxResult<Option<Vec<i16>>>)
    requires
        old(reader).wf(),
        1 <= d <= 32,
        spb <= 0x1_0000,
    ensures
        final(reader).wf(),
        final(reader).data() == old(reader).data(),
        ({
            let s = old(reader).data();
            let q = old(reader).pos();
            let fits = q + 16 + spb * d <= s.len() * 8;
            &&& (fits && bits_value(s, q, 16) != END_SCALE) ==> r is Ok && r->Ok_0 is Some
            &&& (q + 16 <= s.len() * 8 && bits_value(s, q, 16) == END_SCALE) ==> r == Ok::<Option<Vec<i16>>, RadxError>(None)
            &&& r is Err ==> !fits
            &&& (r is Ok && r->Ok_0 is Some) ==> {
                &&& fits
                &&& bits_value(s, q, 16) != END_SCALE
                &&& r->Ok_0->Some_0@ == block_samples(k, s, q, d as nat, spb as nat, p1, p2)
                &&& final(reader).pos() == q + 16 + spb * d
            }
        }),
{
    let ghost s = reader.data();
    let ghost q = reader.pos();
    let raw_scale = match reader.read(16) {
        Ok(v) => v,
        Err(e) => {
            proof {
                assert(q + 16 + spb * d >= q + 16) by (nonlinear_arith)
                    requires
                        spb >= 0,
                        d >= 0,
                ;
            }
            return Err(e);
        },
    };
    proof {
        reveal_with_fuel(pow2, 17);
        assert(raw_scale as int == bits_value(s, q, 16));
    }
    if raw_scale == END_SCALE {
        return Ok(None);
    }
    let scale = raw_scale as i64;
    let ghost rs = block_residuals(s, q, d as nat, spb as nat);
    let mut out: Vec<i16> = Vec::new();
    let mut a = p1;
    let mut b = p2;
    let mut i: usize = 0;
    while i < spb
        invariant
            reader.wf(),
            reader.data() == s,
            s == old(reader).data(),
            q == old(reader).pos(),
            q + 16 <= s.len() * 8,
            1 <= d <= 32,
            0 <= scale <= 0xffff,
            scale == bits_value(s, q, 16),
            i <= spb <= 0x1_0000,
            reader.pos() == q + 16 + i * d,
            rs == block_residuals(s, q, d as nat, spb as nat),
            bits_value(s, q, 16) != END_SCALE,
            out@ == decode_run(k, scale as int, p1, p2, rs.take(i as int)),
            (a, b) == history(p1, p2, out@),
        decreases spb - i,
    {
        let ghost pos = reader.pos();
        let raw = match reader.read(d) {
            Ok(v) => v,
            Err(e) => {
                proof {
                    assert(q + 16 + spb * d > s.len() * 8) by (nonlinear_arith)
                        requires
                            i < spb,
                            d >= 0,
                            pos == q + 16 + i * d,
                            pos + d > s.len() * 8,
                    ;
                }
                return Err(e);
            },
        };
        proof {
            assert(pos == q + 16 + i * d);
            lemma_pow2_width(d as nat);
        }
        let r = sign_extend(raw, d);
        assert(r as int == rs[i as int]);
        let x = reconstruct(k, a, b, scale, r as i64);
        proof {
            assert(rs.take(i + 1).drop_last() =~= rs.take(i as int));
            lemma_decode_run_len(k, scale as int, p1, p2, rs.take(i as int));
        }
        proof {
            lemma_history_push(p1, p2, out@, x);
        }
        out.push(x);
        b = a;
        a = x;
        proof {
            assert(pos + d == q + 16 + (i + 1) * d) by (nonlinear_arith)
                requires
                    pos == q + 16 + i * d,
            ;
        }
        i = i + 1;
    }
    proof {
        assert(rs.take(spb as int) =~= rs);
        reader.lemma_pos_bound();
    }
    Ok(Some(out))
}

proof fn lemma_pow2_width(d: nat)
    requires
        1 <= d <= 32,
    ensures
        pow2(d) <= 0x1_0000_0000,
        pow2((d - 1) as nat) * 2 == pow2(d),
{
    crate::bitio::lemma_pow2_mono(d, 32);
    crate::bitio::lemma_pow2_32_pub();
}

impl StandardDecoder {
    /// The header decoded from.
    pub closed spec fn header(&self) -> AdxHeader {
        self.header
    }

    /// The whole file's bytes.
    pub closed spec fn data(&self) -> Seq<u8> {
        self.inner.data()
    }

    /// The bit position that the next frame is read from (after aligning to a byte).
    pub closed spec fn pos(&self) -> int {
        self.inner.pos()
    }

    /// The index, counted in stored samples, of the next sample.
    pub closed spec fn cur(&self) -> int {
        self.current_sample as int
    }

    /// The rows of the frame being delivered.
    pub closed spec fn rows(&self) -> Seq<Seq<i16>> {
        Seq::new(self.samples@.len(), |i: int| self.samples@[i]@)
    }

    /// The index of the next row to deliver.
    pub closed spec fn idx(&self) -> int {
        self.sample_vec_idx as int
    }

    /// The alignment samples still to be skipped when the first frame is read.
    pub closed spec fn pending_alignment(&self) -> int {
        self.alignment_samples as int
    }

    /// The last and the one-before-last decoded sample of each channel.
    pub closed spec fn hist(&self) -> (Seq<i16>, Seq<i16>) {
        (self.prev_sample@, self.prev_prev_sample@)
    }

    pub closed spec fn coeffs(&self) -> Coeffs {
        self.coeffs
    }

    /// Whether the stream has ended: every later call gives `None`.
    pub closed spec fn done(&self) -> bool {
        self.done
    }

    /// Where the decoder jumps back to, when it loops: `(end_sample, begin_sample, begin_byte)`.
    pub closed spec fn jump(&self) -> Option<(int, int, int)> {
        match self.loop_info {
            Some(li) => Some((li.end_sample as int, li.begin_sample as int, li.begin_byte as int)),
            None => None,
        }
    }

    pub closed spec fn wf(&self) -> bool {
        let ch = self.header.channel_count as nat;
        let spb = samples_per_block(self.header);
        &&& self.inner.wf()
        &&& decodable(self.header)
        &&& self.prev_sample@.len() == ch
        &&& self.prev_prev_sample@.len() == ch
        &&& (self.samples@.len() == 0 || self.samples@.len() == spb)
        &&& forall|i: int| 0 <= i < self.samples@.len() ==> (#[trigger] self.samples@[i])@.len() == ch
        &&& self.sample_vec_idx <= self.samples@.len()
        &&& self.alignment_samples < spb
    }

    /// A decoder of the data that starts at byte `data_start` of `inner`; with `looping`, a
    /// version 3 loop is followed.
    /// The state `from_header` starts in: at byte `data_start` of `inner` (or its end), at
    /// stored sample 0, with no frame read, zero histories, the header's alignment still to
    /// skip, and a loop to follow only where `looping` asks for one and the header has one.
    pub open spec fn started(r: StandardDecoder, header: AdxHeader, inner: Seq<u8>, data_start: int, looping: bool, coeffs: Coeffs) -> bool {
        &&& r.wf()
        &&& r.header() == header
        &&& r.data() == inner
        &&& r.pos() == (if data_start <= inner.len() { data_start * 8 } else { inner.len() as int * 8 })
        &&& r.cur() == 0
        &&& r.rows().len() == 0
        &&& r.idx() == 0
        &&& r.pending_alignment() == alignment_of_header(header)
        &&& r.hist() == (
            Seq::new(header.channel_count as nat, |c: int| 0i16),
            Seq::new(header.channel_count as nat, |c: int| 0i16),
        )
        &&& r.coeffs() == coeffs
        &&& r.jump() == (match header.version {
            AdxVersion::Version3(Some(li)) => if looping {
                Some((li.end_sample as int, li.begin_sample as int, li.begin_byte as int))
            } else {
                None
            },
            _ => None,
        })
        &&& !r.done()
    }

    pub fn from_header(header: AdxHeader, inner: Vec<u8>, data_start: usize, looping: bool, coeffs: Coeffs) -> (r: StandardDecoder)
        requires
            decodable(header),
        ensures
            Self::started(r, header, inner@, data_start as int, looping, coeffs),
    {
        let channels = header.channel_count as usize;
        let mut prev_sample: Vec<i16> = Vec::new();
        let mut c: usize = 0;
        while c < channels
            invariant
                c <= channels,
                prev_sample@ =~= Seq::new(c as nat, |j: int| 0i16),
            decreases channels - c,
        {
            prev_sample.push(0);
            c = c + 1;
        }
        let prev_prev_sample = prev_sample.clone();
        assert(prev_prev_sample@ =~= prev_sample@);
        let alignment_samples: u32 = match header.version {
            AdxVersion::Version3(Some(li)) => li.alignment_samples as u32,
            _ => 0,
        };
        let loop_info = if looping {
            match header.version {
                AdxVersion::Version3(Some(li)) => Some(
                    LoopReadInfo {
                        begin_byte: li.begin_byte,
                        begin_sample: li.begin_sample,
                        end_sample: li.end_sample,
                    },
                ),
                _ => None,
            }
        } else {
            None
        };
        let mut reader = BitReader::new(inner);
        reader.seek(data_start);
        StandardDecoder {
            inner: reader,
            header,
            samples: Vec::new(),
            sample_vec_idx: 0,
            prev_sample,
            prev_prev_sample,
            coeffs,
            alignment_samples,
            current_sample: 0,
            loop_info,
            done: false,
        }
    }

    /// Reads the next frame, one block per channel from the next byte boundary; `None` where
    /// a block marks the end of the stream.
    fn read_frame(&mut self) -> (r: RadxResult<Option<Vec<Sample>>>)
        requires
            old(self).wf(),
        ensures
            final(self).inner.wf(),
            final(self).data() == old(self).data(),
            final(self).header == old(self).header,
            final(self).coeffs == old(self).coeffs,
            final(self).loop_info == old(self).loop_info,
            final(self).samples == old(self).samples,
            final(self).sample_vec_idx == old(self).sample_vec_idx,
            final(self).current_sample == old(self).current_sample,
            final(self).alignment_samples == old(self).alignment_samples,
            final(self).prev_sample@.len() == old(self).prev_sample@.len(),
            final(self).prev_prev_sample@.len() == old(self).prev_prev_sample@.len(),
            ({
                let h = old(self).header;
                let q = (old(self).pos() + 7) / 8 * 8;
                let d = h.sample_bitdepth as nat;
                let spb = samples_per_block(h) as nat;
                let ch = h.channel_count as nat;
                &&& frame_ok(old(self).data(), q, d, spb, ch) ==> r is Ok && r->Ok_0 is Some
                &&& r is Err ==> q + ch * (16 + spb * d) > old(self).data().len() * 8
                &&& forall|c: int|
                    0 <= c < ch && block_at(q, c, spb as int, d as int) + 16 <= old(self).data().len() * 8
                        && bits_value(old(self).data(), #[trigger] block_at(q, c, spb as int, d as int), 16) == END_SCALE
                        && (forall|j: int| 0 <= j < c ==> bits_value(old(self).data(), #[trigger] block_at(q, j, spb as int, d as int), 16) != END_SCALE)
                        ==> r == Ok::<Option<Vec<Sample>>, RadxError>(None)
                &&& (r is Ok && r->Ok_0 is Some) ==> {
                    &&& frame_ok(old(self).data(), q, d, spb, ch)
                    &&& r->Ok_0->Some_0@.len() == spb
                    &&& forall|c: int| 0 <= c < ch ==> (#[trigger] final(self).prev_sample@[c], final(self).prev_prev_sample@[c]) == history(
                        old(self).prev_sample@[c],
                        old(self).prev_prev_sample@[c],
                        block_samples(old(self).coeffs, old(self).data(), block_at(q, c, spb as int, d as int), d, spb, old(self).prev_sample@[c], old(self).prev_prev_sample@[c]),
                    )
                    &&& forall|i: int| 0 <= i < spb ==> (#[trigger] r->Ok_0->Some_0@[i])@.len() == ch
                    &&& Seq::new(spb, |i: int| r->Ok_0->Some_0@[i]@) == frame_rows(
                        old(self).coeffs,
                        old(self).data(),
                        q,
                        d,
                        spb,
                        old(self).prev_sample@,
                        old(self).prev_prev_sample@,
                    )
                }
            }),
    {
        self.inner.reset();
        let ghost s = self.inner.data();
        let ghost q = self.inner.pos();
        let d = self.header.sample_bitdepth as u32;
        let spb = ((self.header.block_size as usize - 2) * 8) / d as usize;
        let channels = self.header.channel_count as usize;
        let ghost p1s = self.prev_sample@;
        let ghost p2s = self.prev_prev_sample@;
        let ghost k = self.coeffs;
        assert(spb <= 0x1_0000);
        let mut chans: Vec<Vec<i16>> = Vec::new();
        let mut c: usize = 0;
        while c < channels
            invariant
                self.inner.wf(),
                self.inner.data() == s,
                s == old(self).data(),
                q == (old(self).pos() + 7) / 8 * 8,
                self.header == old(self).header,
                self.coeffs == k,
                k == old(self).coeffs,
                self.loop_info == old(self).loop_info,
                self.samples == old(self).samples,
                self.sample_vec_idx == old(self).sample_vec_idx,
                self.current_sample == old(self).current_sample,
                self.alignment_samples == old(self).alignment_samples,
                p1s == old(self).prev_sample@,
                p2s == old(self).prev_prev_sample@,
                channels == self.header.channel_count,
                d == self.header.sample_bitdepth,
                1 <= d <= 32,
                spb == samples_per_block(self.header),
                1 <= spb <= 0x1_0000,
                c <= channels,
                p1s.len() == channels,
                p2s.len() == channels,
                self.prev_sample@.len() == channels,
                self.prev_prev_sample@.len() == channels,
                chans@.len() == c,
                self.inner.pos() == block_at(q, c as int, spb as int, d as int),
                forall|j: int| 0 <= j < c ==> bits_value(s, #[trigger] block_at(q, j, spb as int, d as int), 16) != END_SCALE,
                forall|j: int| 0 <= j < c ==> (#[trigger] chans@[j])@.len() == spb,
                forall|j: int| c <= j < channels ==> #[trigger] self.prev_sample@[j] == p1s[j],
                forall|j: int| c <= j < channels ==> #[trigger] self.prev_prev_sample@[j] == p2s[j],
                forall|j: int| 0 <= j < c ==> (#[trigger] self.prev_sample@[j], self.prev_prev_sample@[j]) == history(p1s[j], p2s[j], chans@[j]@),
                forall|j: int| 0 <= j < c ==> (#[trigger] chans@[j])@ == block_samples(k, s, block_at(q, j, spb as int, d as int), d as nat, spb as nat, p1s[j], p2s[j]),
            decreases channels - c,
        {
            let p1 = self.prev_sample[c];
            let p2 = self.prev_prev_sample[c];
            let ghost qc = self.inner.pos();
            let block = match decode_block(&mut self.inner, self.coeffs, p1, p2, d, spb) {
                Ok(Some(v)) => v,
                Ok(None) => {
                    proof {
                        if qc + 16 + spb * d > s.len() * 8 {
                            lemma_block_inside(q, c as int, channels as int, spb as int, d as int, s.len() as int);
                        }
                    }
                    return Ok(None);
                },
                Err(e) => {
                    proof {
                        lemma_block_inside(q, c as int, channels as int, spb as int, d as int, s.len() as int);
                        assert forall|c2: int|
                            0 <= c2 < channels && block_at(q, c2, spb as int, d as int) + 16 <= s.len() * 8
                                && bits_value(s, #[trigger] block_at(q, c2, spb as int, d as int), 16) == END_SCALE
                                && (forall|j: int| 0 <= j < c2 ==> bits_value(s, #[trigger] block_at(q, j, spb as int, d as int), 16) != END_SCALE)
                            implies false by {
                            if c2 > c {
                                lemma_block_order(q, c as int, c2, spb as int, d as int);
                                assert(bits_value(s, block_at(q, c as int, spb as int, d as int), 16) != END_SCALE);
                            }
                        }
                    }
                    return Err(e);
                },
            };
            proof {
                lemma_decode_run_len(k, bits_value(s, qc, 16) as int, p1, p2, block_residuals(s, qc, d as nat, spb as nat));
                assert(qc + 16 + spb * d == block_at(q, c + 1, spb as int, d as int)) by (nonlinear_arith)
                    requires
                        qc == block_at(q, c as int, spb as int, d as int),
                ;
            }
            let n = block.len();
            let (a, b) = if n >= 2 {
                (block[n - 1], block[n - 2])
            } else {
                (block[0], p1)
            };
            assert((a, b) == history(p1, p2, block@));
            self.prev_sample.set(c, a);
            self.prev_prev_sample.set(c, b);
            chans.push(block);
            c = c + 1;
        }
        proof {
            self.inner.lemma_pos_bound();
        }
        let mut rows: Vec<Sample> = Vec::new();
        let mut i: usize = 0;
        while i < spb
            invariant
                i <= spb,
                chans@.len() == channels,
                forall|j: int| 0 <= j < channels ==> (#[trigger] chans@[j])@.len() == spb,
                rows@.len() == i,
                forall|r: int| 0 <= r < i ==> (#[trigger] rows@[r])@ == Seq::new(channels as nat, |j: int| chans@[j]@[r]),
            decreases spb - i,
        {
            let mut row: Vec<i16> = Vec::new();
            let mut j: usize = 0;
            while j < channels
                invariant
                    i < spb,
                    j <= channels,
                    chans@.len() == channels,
                    forall|x: int| 0 <= x < channels ==> (#[trigger] chans@[x])@.len() == spb,
                    row@ =~= Seq::new(j as nat, |x: int| chans@[x]@[i as int]),
                decreases channels - j,
            {
                row.push(chans[j][i]);
                j = j + 1;
            }
            rows.push(row);
            i = i + 1;
        }
        proof {
            let fr = frame_rows(k, s, q, d as nat, spb as nat, p1s, p2s);
            assert(Seq::new(spb as nat, |i: int| rows@[i]@) =~= fr) by {
                assert forall|r: int| 0 <= r < spb implies Seq::new(spb as nat, |i: int| rows@[i]@)[r] =~= fr[r] by {
                    assert forall|j: int| 0 <= j < channels implies #[trigger] fr[r][j] == chans@[j]@[r] by {
                        assert(chans@[j]@ == block_samples(k, s, block_at(q, j, spb as int, d as int), d as nat, spb as nat, p1s[j], p2s[j]));
                    }
                }
            }
        }
        Ok(Some(rows))
    }
    /// The channel count.
    pub fn channels(&self) -> (r: u32)
        ensures
            r == self.header().channel_count,
    {
        self.header.channel_count as u32
    }

    /// The sample rate.
    pub fn sample_rate(&self) -> (r: u32)
        ensures
            r == self.header().sample_rate,
    {
        self.header.sample_rate
    }

    /// The loop of a version 3 header, in the samples that callers see: the stored bounds
    /// less the alignment samples (at least 0).
    pub fn loop_info(&self) -> (r: Option<LoopInfo>)
        ensures
            r == reported_loop(self.header()),
    {
        match self.header.version {
            AdxVersion::Version3(Some(li)) => {
                let a = li.alignment_samples as u32;
                Some(
                    LoopInfo {
                        start_sample: if li.begin_sample >= a { li.begin_sample - a } else { 0 },
                        end_sample: if li.end_sample >= a { li.end_sample - a } else { 0 },
                    },
                )
            },
            _ => None,
        }
    }

    /// One call of `next_sample` from state `a` to state `b`, giving `r`: once the stream has
    /// ended nothing changes and `None` comes; otherwise, a loop jump when its end sample is
    /// reached, a new frame when the current one is used up (the first one skipping the
    /// alignment samples), and `None` at the stored sample count or where no frame can be read.
    pub open spec fn step(a: StandardDecoder, b: StandardDecoder, r: Option<Sample>) -> bool {
        &&& b.wf()
        &&& b.header() == a.header()
        &&& b.data() == a.data()
        &&& b.coeffs() == a.coeffs()
        &&& b.jump() == a.jump()
        &&& a.done() ==> r is None && b == a
        &&& r is None ==> b.done()
        &&& !a.done() ==> ({
            let h = a.header();
            let total = h.total_samples as int;
            let jumped = a.jump() is Some && a.cur() == a.jump()->Some_0.0;
            let cur1 = if jumped { a.jump()->Some_0.1 } else { a.cur() };
            let pos1 = if !jumped {
                a.pos()
            } else if a.jump()->Some_0.2 <= a.data().len() {
                a.jump()->Some_0.2 * 8
            } else {
                a.data().len() as int * 8
            };
            let reload = jumped || a.idx() == a.rows().len();
            let q = (pos1 + 7) / 8 * 8;
            let skip = a.pending_alignment();
            let cur2 = if skip != 0 { skip } else { cur1 };
            let spb = samples_per_block(h) as nat;
            let fr = frame_rows(a.coeffs(), a.data(), q, h.sample_bitdepth as nat, spb, a.hist().0, a.hist().1);
            &&& !reload ==> (r is None <==> (cur1 == total || cur1 == u32::MAX))
            &&& (!reload && r is Some) ==> {
                &&& r->Some_0@ == a.rows()[a.idx()]
                &&& b.idx() == a.idx() + 1
                &&& b.cur() == cur1 + 1
                &&& b.rows() == a.rows()
            }
            &&& (reload && frame_ok(a.data(), q, h.sample_bitdepth as nat, spb, h.channel_count as nat) && cur2 != total && cur2 != u32::MAX) ==> r is Some
            &&& (reload && (cur2 == total || cur2 == u32::MAX)) ==> r is None
            &&& (reload && r is Some) ==> {
                &&& frame_ok(a.data(), q, h.sample_bitdepth as nat, spb, h.channel_count as nat)
                &&& b.rows() == fr
                &&& r->Some_0@ == fr[skip]
                &&& b.idx() == skip + 1
                &&& b.cur() == cur2 + 1
                &&& b.pending_alignment() == 0
            }
        })
    }

    /// The next sample, one value per channel; `None` at the end of the stream, or where the
    /// data cannot be decoded. With a loop, reaching its end sample first moves back to its
    /// begin byte and sample; a new frame is read whenever the current one is used up, and
    /// the first one read skips the alignment samples.
    pub fn next_sample(&mut self) -> (r: Option<Sample>)
        requires
            old(self).wf(),
        ensures
            Self::step(*old(self), *final(self), r),
    {
        if self.done {
            return None;
        }
        match &self.loop_info {
            Some(li) => {
                if self.current_sample == li.end_sample {
                    let begin_byte = li.begin_byte as usize;
                    let begin_sample = li.begin_sample;
                    self.inner.seek(begin_byte);
                    self.sample_vec_idx = self.samples.len();
                    self.current_sample = begin_sample;
                }
            },
            None => {},
        }
        if self.sample_vec_idx == self.samples.len() {
            match self.read_frame() {
                Ok(Some(v)) => {
                    self.samples = v;
                    self.sample_vec_idx = 0;
                    if self.alignment_samples != 0 {
                        self.sample_vec_idx = self.alignment_samples as usize;
                        self.current_sample = self.alignment_samples;
                        self.alignment_samples = 0;
                    }
                },
                _ => {
                    self.done = true;
                    return None;
                },
            }
        }
        if self.current_sample == self.header.total_samples || self.current_sample == u32::MAX {
            self.done = true;
            None
        } else {
            let result = copy_sample(&self.samples[self.sample_vec_idx]);
            self.sample_vec_idx = self.sample_vec_idx + 1;
            self.current_sample = self.current_sample + 1;
            Some(result)
        }
    }
}

fn copy_sample(s: &Sample) -> (r: Sample)
    ensures
        r@ == s@,
{
    let mut r: Vec<i16> = Vec::new();
    let mut i: usize = 0;
    while i < s.len()
        invariant
            i <= s@.len(),
            r@ =~= s@.take(i as int),
        decreases s@.len() - i,
    {
        r.push(s[i]);
        i = i + 1;
    }
    assert(s@.take(s@.len() as int) =~= s@);
    r
}

/// The loop that a header reports to callers: the stored bounds less the alignment samples.
pub open spec fn reported_loop(h: AdxHeader) -> Option<LoopInfo> {
    match h.version {
        AdxVersion::Version3(Some(li)) => Some(
            LoopInfo {
                start_sample: if li.begin_sample >= li.alignment_samples {
                    (li.begin_sample - li.alignment_samples) as u32
                } else {
                    0
                },
                end_sample: if li.end_sample >= li.alignment_samples {
                    (li.end_sample - li.alignment_samples) as u32
                } else {
                    0
                },
            },
        ),
        _ => None,
    }
}

/// Decoding the bytes of a coded block, from the history the encoder coded it from, rebuilds
/// exactly the samples that the encoder simulated while coding it; its scale is never the
/// end-of-stream marker.
#[verifier::rlimit(40)]
pub proof fn lemma_block_bytes_agree(k: Coeffs, p1: i16, p2: i16, s: Seq<i16>)
    requires
        coeffs_ok(k),
        s.len() <= 32,
        !(res_min(k, p1, p2, s, s.len()) == 0 && res_max(k, p1, p2, s, s.len()) == 0),
    ensures
        block_scale(res_min(k, p1, p2, s, s.len()), res_max(k, p1, p2, s, s.len())) < END_SCALE,
        bits_value(encode_block(k, p1, p2, s).0, 0, 16) != END_SCALE,
        block_samples(k, encode_block(k, p1, p2, s).0, 0, 4, 32, p1, p2) == encode_run(
            k,
            block_scale(res_min(k, p1, p2, s, s.len()), res_max(k, p1, p2, s, s.len())),
            p1,
            p2,
            block_padded(s),
        ).1,
{
    let mn = res_min(k, p1, p2, s, s.len());
    let mx = res_max(k, p1, p2, s, s.len());
    lemma_res_bounds(k, p1, p2, s, s.len());
    let scale = block_scale(mn, mx);
    assert(1 <= scale <= 18725);
    let padded = block_padded(s);
    let run = encode_run(k, scale, p1, p2, padded);
    lemma_encoder_decoder_agree(k, scale, p1, p2, padded);
    lemma_codes_in_range(k, scale, p1, p2, padded);
    let nibs = run.0;
    let b = u16_be(scale as u16) + nibble_bytes(nibs);
    assert(b == encode_block(k, p1, p2, s).0);
    assert(b.len() == 18);
    lemma_bits_value_split(b, 0, 8, 8);
    lemma_nibbles_of_byte(b, 0);
    lemma_nibbles_of_byte(b, 1);
    reveal_with_fuel(pow2, 9);
    crate::byte_io::lemma_u16_be(scale as u16);
    assert(b[0] == u16_be(scale as u16)[0] && b[1] == u16_be(scale as u16)[1]);
    assert(bits_value(b, 8, 8) == b[1] as int) by {
        assert(8 * 1 == 8int);
    }
    assert(bits_value(b, 0, 16) == scale);
    let rs = block_residuals(b, 0, 4, 32);
    assert forall|i: int| 0 <= i < 32 implies #[trigger] rs[i] == nibs[i] by {
        let j = 2 + i / 2;
        lemma_nibbles_of_byte(b, j);
        assert(b[j] == pack_nibbles(nibs[2 * (i / 2)], nibs[2 * (i / 2) + 1]));
        let hi = nibs[2 * (i / 2)];
        let lo = nibs[2 * (i / 2) + 1];
        assert(-8 <= hi <= 7 && -8 <= lo <= 7);
        assert((hi % 16) * 16 + lo % 16 < 256);
        assert(b[j] as int / 16 == hi % 16 && b[j] as int % 16 == lo % 16) by (nonlinear_arith)
            requires
                b[j] as int == (hi % 16) * 16 + lo % 16,
                0 <= hi % 16 < 16,
                0 <= lo % 16 < 16,
        ;
        if i % 2 == 0 {
            assert(16 + i * 4 == 8 * j);
        } else {
            assert(16 + i * 4 == 8 * j + 4);
        }
        reveal_with_fuel(pow2, 5);
    }
    assert(rs =~= nibs);
}

} // verus!
