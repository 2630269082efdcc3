use vstd::prelude::*;

use crate::error::{RadxError, RadxResult};

verus! {

/// Bit `k` of `s`, counting from the most significant bit of byte 0.
pub open spec fn bit_at(s: Seq<u8>, k: int) -> u8 {
    (s[k / 8] >> ((7 - k % 8) as u8)) & 1u8
}

/// The value of the `n` bits of `s` that start at bit `start`, most significant first.
pub open spec fn bits_value(s: Seq<u8>, start: int, n: nat) -> nat
    decreases n,
{
    if n == 0 {
        0
    } else {
        2 * bits_value(s, start, (n - 1) as nat) + bit_at(s, start + n - 1) as nat
    }
}

/// The value of the `n` entries of a sequence of bits (each 0 or 1) from `start`, most
/// significant first.
pub open spec fn seq_value(b: Seq<u8>, start: int, n: nat) -> nat
    decreases n,
{
    if n == 0 {
        0
    } else {
        2 * seq_value(b, start, (n - 1) as nat) + b[start + n - 1] as nat
    }
}

/// The low `n` bits of `num`, most significant first, one entry (0 or 1) per bit.
pub open spec fn bits_of(num: u32, n: nat) -> Seq<u8> {
    Seq::new(n, |j: int| ((num >> ((n - 1 - j) as u32)) & 1u32) as u8)
}

/// Whether every entry is a bit.
pub open spec fn all_bits(b: Seq<u8>) -> bool {
    forall|i: int| 0 <= i < b.len() ==> #[trigger] b[i] <= 1
}

/// The number of zero bits that take `n` bits to a byte boundary.
pub open spec fn pad_len(n: nat) -> nat {
    if n % 8 == 0 {
        0
    } else {
        (8 - n % 8) as nat
    }
}

/// `b` followed by zero bits up to a byte boundary.
pub open spec fn padded(b: Seq<u8>) -> Seq<u8> {
    b + Seq::new(pad_len(b.len()), |i: int| 0u8)
}

/// The bytes that a bit sequence, padded to a byte boundary, packs into.
pub open spec fn pack(b: Seq<u8>) -> Seq<u8> {
    let p = padded(b);
    Seq::new(p.len() / 8, |i: int| seq_value(p, 8 * i, 8) as u8)
}

pub open spec fn pow2(n: nat) -> nat
    decreases n,
{
    if n == 0 {
        1
    } else {
        2 * pow2((n - 1) as nat)
    }
}

proof fn lemma_bit_le_1(x: u8, sh: u8)
    ensures
        (x >> sh) & 1u8 <= 1,
{
    assert((x >> sh) & 1u8 <= 1) by (bit_vector);
}

proof fn lemma_pow2_32()
    ensures
        pow2(32) == 0x1_0000_0000,
{
    reveal_with_fuel(pow2, 33);
}

pub proof fn lemma_pow2_32_pub()
    ensures
        pow2(32) == 0x1_0000_0000,
{
    lemma_pow2_32();
}

pub proof fn lemma_pow2_mono(a: nat, b: nat)
    requires
        a <= b,
    ensures
        pow2(a) <= pow2(b),
    decreases b - a,
{
    if a < b {
        lemma_pow2_mono(a, (b - 1) as nat);
    }
}

/// The value of `n` bits is below `2^n`.
pub proof fn lemma_bits_value_bound(s: Seq<u8>, start: int, n: nat)
    ensures
        bits_value(s, start, n) < pow2(n),
    decreases n,
{
    if n > 0 {
        lemma_bits_value_bound(s, start, (n - 1) as nat);
        let k = start + n - 1;
        lemma_bit_le_1(s[k / 8], (7 - k % 8) as u8);
    }
}

/// The value of `n` entries that are bits is below `2^n`.
pub proof fn lemma_seq_value_bound(b: Seq<u8>, start: int, n: nat)
    requires
        forall|i: int| start <= i < start + n ==> #[trigger] b[i] <= 1,
    ensures
        seq_value(b, start, n) < pow2(n),
    decreases n,
{
    if n > 0 {
        lemma_seq_value_bound(b, start, (n - 1) as nat);
    }
}

/// `2^n`.
pub fn pow2_exec(n: u32) -> (r: u64)
    requires
        n <= 40,
    ensures
        r == pow2(n as nat),
{
    let mut r: u64 = 1;
    let mut i: u32 = 0;
    while i < n
        invariant
            i <= n <= 40,
            r == pow2(i as nat),
        decreases n - i,
    {
        proof {
            lemma_pow2_mono((i + 1) as nat, 40);
            lemma_pow2_40();
        }
        r = r * 2;
        i = i + 1;
    }
    r
}

pub proof fn lemma_pow2_40()
    ensures
        pow2(40) == 0x100_0000_0000,
{
    reveal_with_fuel(pow2, 41);
}

/// A reader of bits, most significant first, over a byte sequence.
pub struct BitReader {
    data: Vec<u8>,
    byte: usize,
    bit: u32,
}

impl BitReader {
    /// The bytes read from.
    pub closed spec fn data(&self) -> Seq<u8> {
        self.data@
    }

    /// The index of the next bit to be read.
    pub closed spec fn pos(&self) -> int {
        self.byte * 8 + self.bit
    }

    pub closed spec fn wf(&self) -> bool {
        &&& self.bit < 8
        &&& self.byte <= self.data@.len()
        &&& self.byte == self.data@.len() ==> self.bit == 0
    }

    /// The number of bits in the data.
    pub open spec fn len_bits(&self) -> int {
        self.data().len() as int * 8
    }

    pub proof fn lemma_pos_bound(&self)
        requires
            self.wf(),
        ensures
            0 <= self.pos() <= self.len_bits(),
    {
    }

    pub fn new(inner: Vec<u8>) -> (r: BitReader)
        ensures
            r.wf(),
            r.data() == inner@,
            r.pos() == 0,
    {
        BitReader { data: inner, byte: 0, bit: 0 }
    }

    /// Discards the rest of the current byte, so that the next read starts on a byte
    /// boundary.
    pub fn reset(&mut self)
        requires
            old(self).wf(),
        ensures
            final(self).wf(),
            final(self).data() == old(self).data(),
            final(self).pos() == (old(self).pos() + 7) / 8 * 8,
    {
        if self.bit != 0 {
            let len = self.data.len();
            assert(self.byte < len);
            self.bit = 0;
            self.byte = self.byte + 1;
        }
    }

    /// The index of the byte that the next read starts in.
    pub fn byte_pos(&self) -> (r: usize)
        requires
            self.wf(),
        ensures
            r == self.pos() / 8,
    {
        self.byte
    }

    /// Moves to the start of byte `at`.
    pub fn seek(&mut self, at: usize)
        requires
            old(self).wf(),
        ensures
            final(self).wf(),
            final(self).data() == old(self).data(),
            at <= old(self).data().len() ==> final(self).pos() == at * 8,
            at > old(self).data().len() ==> final(self).pos() == old(self).len_bits(),
    {
        self.bit = 0;
        if at <= self.data.len() {
            self.byte = at;
        } else {
            self.byte = self.data.len();
        }
    }

    /// Reads `bits` bits as an unsigned number, most significant first; fails, and moves
    /// nothing, where fewer bits are left.
    pub fn read(&mut self, bits: u32) -> (r: RadxResult<u32>)
        requires
            old(self).wf(),
            bits <= 32,
        ensures
            final(self).wf(),
            final(self).data() == old(self).data(),
            old(self).pos() + bits <= old(self).len_bits() ==> {
                &&& r == Ok::<u32, RadxError>(
                    bits_value(old(self).data(), old(self).pos(), bits as nat) as u32,
                )
                &&& bits_value(old(self).data(), old(self).pos(), bits as nat) < pow2(
                    bits as nat,
                )
                &&& final(self).pos() == old(self).pos() + bits
            },
            old(self).pos() + bits > old(self).len_bits() ==> {
                &&& r == Err::<u32, RadxError>(RadxError::IoError)
                &&& final(self).pos() == old(self).pos()
            },
    {
        let ghost s = self.data@;
        let ghost start = self.pos();
        let needed: usize = ((bits + self.bit + 7) / 8) as usize;
        if needed > self.data.len() - self.byte {
            proof {
                assert(start + bits > s.len() * 8) by (nonlinear_arith)
                    requires
                        needed == (bits + self.bit + 7) / 8,
                        needed > s.len() - self.byte,
                        start == self.byte * 8 + self.bit,
                ;
            }
            return Err(RadxError::IoError);
        }
        proof {
            assert(start + bits <= s.len() * 8) by (nonlinear_arith)
                requires
                    needed == (bits + self.bit + 7) / 8,
                    needed <= s.len() - self.byte,
                    start == self.byte * 8 + self.bit,
            ;
        }
        let mut result: u32 = 0;
        let mut k: u32 = 0;
        while k < bits
            invariant
                self.wf(),
                self.data@ == s,
                k <= bits <= 32,
                start + bits <= s.len() * 8,
                self.pos() == start + k,
                result as nat == bits_value(s, start, k as nat),
                result < pow2(k as nat),
            decreases bits - k,
        {
            proof {
                let p = start + k;
                assert(p / 8 == self.byte && p % 8 == self.bit) by (nonlinear_arith)
                    requires
                        p == self.byte * 8 + self.bit,
                        self.bit < 8,
                ;
                assert(self.byte < s.len()) by (nonlinear_arith)
                    requires
                        p == self.byte * 8 + self.bit,
                        p < s.len() * 8,
                        self.bit < 8,
                ;
                lemma_bit_le_1(s[p / 8], (7 - p % 8) as u8);
                lemma_pow2_mono((k + 1) as nat, 32);
                lemma_pow2_32();
            }
            let len = self.data.len();
            let b = (self.data[self.byte] >> ((7 - self.bit) as u8)) & 1u8;
            result = result * 2 + b as u32;
            if self.bit == 7 {
                self.bit = 0;
                self.byte = self.byte + 1;
            } else {
                self.bit = self.bit + 1;
            }
            k = k + 1;
        }
        Ok(result)
    }
}

/// A writer of bits, most significant first, that packs them into bytes when done.
pub struct BitWriter {
    bits: Vec<u8>,
}

impl BitWriter {
    /// The bits written so far, each 0 or 1, with the padding that `reset` added.
    pub closed spec fn written(&self) -> Seq<u8> {
        self.bits@
    }

    pub fn new() -> (r: BitWriter)
        ensures
            r.written() == Seq::<u8>::empty(),
    {
        BitWriter { bits: Vec::new() }
    }

    /// Pads with zero bits to the next byte boundary.
    pub fn reset(&mut self)
        ensures
            final(self).written() == padded(old(self).written()),
            all_bits(old(self).written()) ==> all_bits(final(self).written()),
    {
        let ghost start = self.bits@;
        while self.bits.len() % 8 != 0
            invariant
                start.len() <= self.bits@.len() <= start.len() + pad_len(start.len()),
                self.bits@ == start + Seq::new(
                    (self.bits@.len() - start.len()) as nat,
                    |i: int| 0u8,
                ),
            decreases start.len() + pad_len(start.len()) - self.bits@.len(),
        {
            self.bits.push(0);
            assert(self.bits@ =~= start + Seq::new(
                (self.bits@.len() - start.len()) as nat,
                |i: int| 0u8,
            ));
        }
        assert(self.bits@ =~= padded(start));
        assert(all_bits(start) ==> all_bits(self.bits@)) by {
            if all_bits(start) {
                assert forall|i: int| 0 <= i < self.bits@.len() implies #[trigger] self.bits@[i] <= 1 by {
                    if i < start.len() {
                        assert(self.bits@[i] == start[i]);
                    }
                }
            }
        }
    }

    /// Appends one bit.
    pub fn write_bit(&mut self, bit: u32)
        requires
            bit <= 1,
        ensures
            final(self).written() == old(self).written().push(bit as u8),
    {
        self.bits.push(bit as u8);
    }

    /// Appends the low `bits` bits of `num`, most significant first.
    pub fn write(&mut self, num: u32, bits: u32)
        requires
            bits <= 32,
        ensures
            final(self).written() == old(self).written() + bits_of(num, bits as nat),
            all_bits(old(self).written()) ==> all_bits(final(self).written()),
    {
        let ghost start = self.bits@;
        let mut left: u32 = bits;
        while left > 0
            invariant
                left <= bits <= 32,
                self.bits@ =~= start + bits_of(num, bits as nat).take(bits - left),
                all_bits(start) ==> all_bits(self.bits@),
            decreases left,
        {
            left = left - 1;
            let b = (num >> left) & 1;
            proof {
                assert((num >> left) & 1u32 <= 1) by (bit_vector);
            }
            self.write_bit(b);
            assert(self.bits@ =~= start + bits_of(num, bits as nat).take(bits - left));
        }
    }

    /// Pads to a byte boundary and hands back the packed bytes.
    pub fn inner(self) -> (r: Vec<u8>)
        requires
            all_bits(self.written()),
        ensures
            r@ == pack(self.written()),
    {
        let mut this = self;
        let ghost b = this.bits@;
        this.reset();
        let p = this.bits;
        assert(p@ == padded(b));
        assert(all_bits(p@));
        let plen = p.len();
        let n = plen / 8;
        let mut out: Vec<u8> = Vec::new();
        let mut i: usize = 0;
        while i < n
            invariant
                plen == p@.len(),
                n == p@.len() / 8,
                i <= n,
                all_bits(p@),
                out@ =~= Seq::new(i as nat, |k: int| seq_value(p@, 8 * k, 8) as u8),
            decreases n - i,
        {
            let mut v: u32 = 0;
            let mut j: usize = 0;
            while j < 8
                invariant
                    i < n,
                    plen == p@.len(),
                    n == p@.len() / 8,
                    j <= 8,
                    all_bits(p@),
                    v as nat == seq_value(p@, 8 * i, j as nat),
                    v < pow2(j as nat),
                decreases 8 - j,
            {
                proof {
                    assert(8 * i + j < 8 * n) by (nonlinear_arith)
                        requires
                            i < n,
                            j < 8,
                    ;
                    assert(8 * n <= p@.len()) by (nonlinear_arith)
                        requires
                            n == p@.len() / 8,
                    ;
                    assert(8 * i + j < p@.len()) by (nonlinear_arith)
                        requires
                            i < n,
                            n == p@.len() / 8,
                            j < 8,
                    ;
                    assert(p@[8 * i + j] <= 1);
                    lemma_pow2_mono((j + 1) as nat, 32);
                    lemma_pow2_32();
                }
                v = v * 2 + p[8 * i + j] as u32;
                j = j + 1;
            }
            proof {
                reveal_with_fuel(pow2, 9);
            }
            out.push(v as u8);
            i = i + 1;
        }
        out
    }
}

/// Reading `n + m` bits is reading `n` bits, then `m` more.
pub proof fn lemma_bits_value_split(s: Seq<u8>, q: int, n: nat, m: nat)
    ensures
        bits_value(s, q, n + m) == bits_value(s, q, n) * pow2(m) + bits_value(s, q + n, m),
    decreases m,
{
    if m == 0 {
        assert(n + m == n);
        assert(pow2(0) == 1);
        assert(bits_value(s, q + n, 0) == 0);
    } else {
        lemma_bits_value_split(s, q, n, (m - 1) as nat);
        assert((n + (m - 1) as nat) as nat == (n + m - 1) as nat);
        assert(bits_value(s, q, n + m) == 2 * bits_value(s, q, (n + m - 1) as nat) + bit_at(s, q + n + m - 1));
        assert(bits_value(s, q + n, m) == 2 * bits_value(s, q + n, (m - 1) as nat) + bit_at(s, q + n + m - 1));
        assert(bits_value(s, q, n) * pow2(m) == 2 * (bits_value(s, q, n) * pow2((m - 1) as nat))) by (nonlinear_arith)
            requires
                pow2(m) == 2 * pow2((m - 1) as nat),
        ;
    }
}

/// The four high bits of byte `j`, and its four low bits.
pub proof fn lemma_nibbles_of_byte(s: Seq<u8>, j: int)
    requires
        0 <= j < s.len(),
    ensures
        bits_value(s, 8 * j, 4) == s[j] as int / 16,
        bits_value(s, 8 * j + 4, 4) == s[j] as int % 16,
        bits_value(s, 8 * j, 8) == s[j] as int,
{
    let x = s[j];
    reveal_with_fuel(bits_value, 9);
    assert((8 * j + 0) / 8 == j && (8 * j + 0) % 8 == 0) by (nonlinear_arith);
    assert((8 * j + 1) / 8 == j && (8 * j + 1) % 8 == 1) by (nonlinear_arith);
    assert((8 * j + 2) / 8 == j && (8 * j + 2) % 8 == 2) by (nonlinear_arith);
    assert((8 * j + 3) / 8 == j && (8 * j + 3) % 8 == 3) by (nonlinear_arith);
    assert((8 * j + 4) / 8 == j && (8 * j + 4) % 8 == 4) by (nonlinear_arith);
    assert((8 * j + 5) / 8 == j && (8 * j + 5) % 8 == 5) by (nonlinear_arith);
    assert((8 * j + 6) / 8 == j && (8 * j + 6) % 8 == 6) by (nonlinear_arith);
    assert((8 * j + 7) / 8 == j && (8 * j + 7) % 8 == 7) by (nonlinear_arith);
    assert(((x >> 7u8) & 1u8) * 8 + ((x >> 6u8) & 1u8) * 4 + ((x >> 5u8) & 1u8) * 2 + ((x >> 4u8) & 1u8) == x / 16
        && ((x >> 3u8) & 1u8) * 8 + ((x >> 2u8) & 1u8) * 4 + ((x >> 1u8) & 1u8) * 2 + ((x >> 0u8) & 1u8) == x % 16) by (bit_vector);
    lemma_bits_value_split(s, 8 * j, 4, 4);
    reveal_with_fuel(pow2, 5);
}

} // verus!
