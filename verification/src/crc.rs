//! Hardware CRC-32 calculator.
//!
//! The peripheral accepts 8-, 16-, and 32-bit writes at the same `DATA`
//! address. A byte stream is submitted as 32-bit writes of four bytes each,
//! most significant byte first, as the chip vendor's software
//! does; a final partial word is finished with a 16- and/or 8-bit
//! write, so no padding enters the CRC stream. [`update_writes`] computes
//! that sequence of writes.

use vstd::prelude::*;

verus! {

/// Number of bounded spin iterations used before reading `BUSY`.
///
/// Hardware asserts `BUSY` one AHB clock after a `DATA` write; the delay
/// leaves a larger margin before the first status read.
pub const BUSY_VISIBILITY_DELAY: u8 = 100;

/// Input or output bit/byte permutation.
#[derive(Clone, Copy, Debug, PartialEq, Eq, Structural)]
pub enum Transpose {
    /// Keep bits and bytes unchanged.
    Unchanged,
    /// Reverse the bits in every byte.
    Bits,
    /// Reverse both the bits in every byte and the byte order.
    BitsAndBytes,
    /// Reverse the byte order.
    Bytes,
}

impl Transpose {
    /// The two-bit `TOT`/`TOTR` field value.
    pub fn bits(self) -> (r: u8)
        ensures
            r == (match self {
                Transpose::Unchanged => 0u8,
                Transpose::Bits => 1u8,
                Transpose::BitsAndBytes => 2u8,
                Transpose::Bytes => 3u8,
            }),
    {
        match self {
            Transpose::Unchanged => 0,
            Transpose::Bits => 1,
            Transpose::BitsAndBytes => 2,
            Transpose::Bytes => 3,
        }
    }
}

impl Default for Transpose {
    fn default() -> (r: Self)
        ensures
            r == Transpose::Unchanged,
    {
        Transpose::Unchanged
    }
}

/// CRC calculation parameters.
#[derive(Clone, Copy, Debug, PartialEq, Eq, Structural)]
pub struct Config {
    pub polynomial: u32,
    pub initial_value: u32,
    pub input_transpose: Transpose,
    pub output_transpose: Transpose,
    pub final_xor: bool,
}

/// The parameters of CRC-32/ISO-HDLC.
pub open spec fn iso_hdlc() -> Config {
    Config {
        polynomial: 0x04c1_1db7,
        initial_value: 0xffff_ffff,
        input_transpose: Transpose::BitsAndBytes,
        output_transpose: Transpose::BitsAndBytes,
        final_xor: true,
    }
}

/// The parameters of CRC-32/MPEG-2.
pub open spec fn mpeg2() -> Config {
    Config {
        polynomial: 0x04c1_1db7,
        initial_value: 0xffff_ffff,
        input_transpose: Transpose::Bytes,
        output_transpose: Transpose::Unchanged,
        final_xor: false,
    }
}

impl Config {
    /// Creates a configuration for the supplied 32-bit polynomial.
    pub fn new(polynomial: u32) -> (r: Self)
        ensures
            r == (Config {
                polynomial,
                initial_value: 0,
                input_transpose: Transpose::Unchanged,
                output_transpose: Transpose::Unchanged,
                final_xor: false,
            }),
    {
        Config {
            polynomial,
            initial_value: 0,
            input_transpose: Transpose::Unchanged,
            output_transpose: Transpose::Unchanged,
            final_xor: false,
        }
    }

    pub fn initial_value(self, value: u32) -> (r: Self)
        ensures
            r == (Config { initial_value: value, ..self }),
    {
        Config { initial_value: value, ..self }
    }

    pub fn input_transpose(self, value: Transpose) -> (r: Self)
        ensures
            r == (Config { input_transpose: value, ..self }),
    {
        Config { input_transpose: value, ..self }
    }

    pub fn output_transpose(self, value: Transpose) -> (r: Self)
        ensures
            r == (Config { output_transpose: value, ..self }),
    {
        Config { output_transpose: value, ..self }
    }

    pub fn final_xor(self, enabled: bool) -> (r: Self)
        ensures
            r == (Config { final_xor: enabled, ..self }),
    {
        Config { final_xor: enabled, ..self }
    }

    /// CRC-32/ISO-HDLC (`CRC-32`, check value `0xcbf43926`).
    pub fn crc32_iso_hdlc() -> (r: Self)
        ensures
            r == iso_hdlc(),
            r.polynomial == 0x04c1_1db7,
            r.initial_value == 0xffff_ffff,
            r.input_transpose == Transpose::BitsAndBytes,
            r.output_transpose == Transpose::BitsAndBytes,
            r.final_xor == true,
    {
        Self::new(0x04c1_1db7).initial_value(0xffff_ffff).input_transpose(
            Transpose::BitsAndBytes,
        ).output_transpose(Transpose::BitsAndBytes).final_xor(true)
    }

    /// CRC-32/MPEG-2 (check value `0x0376e6e7`).
    pub fn crc32_mpeg2() -> (r: Self)
        ensures
            r == mpeg2(),
            r.polynomial == 0x04c1_1db7,
            r.initial_value == 0xffff_ffff,
            r.input_transpose == Transpose::Bytes,
            r.output_transpose == Transpose::Unchanged,
            r.final_xor == false,
    {
        Self::new(0x04c1_1db7).initial_value(0xffff_ffff).input_transpose(
            Transpose::Bytes,
        ).output_transpose(Transpose::Unchanged)
    }
}

impl Default for Config {
    fn default() -> (r: Self)
        ensures
            r == iso_hdlc(),
    {
        Self::crc32_iso_hdlc()
    }
}

/// Error returned when configuration is changed during a calculation.
#[derive(Clone, Copy, Debug, PartialEq, Eq, Structural)]
pub enum Error {
    /// The hardware is still processing previously supplied data.
    Busy,
}

/// Error returned by an operation with a finite poll budget.
#[derive(Clone, Copy, Debug, PartialEq, Eq, Structural)]
pub struct Timeout;

/// Four bytes read as a big-endian word.
pub open spec fn be32(b0: u8, b1: u8, b2: u8, b3: u8) -> u32 {
    (b0 * 0x100_0000 + b1 * 0x1_0000 + b2 * 0x100 + b3) as u32
}

/// Two bytes read as a big-endian half-word.
pub open spec fn be16(b0: u8, b1: u8) -> u16 {
    (b0 * 0x100 + b1) as u16
}

/// The big-endian word formed by the four bytes of `bytes` from `start` on.
pub open spec fn word_at(bytes: Seq<u8>, start: int) -> u32 {
    be32(bytes[start], bytes[start + 1], bytes[start + 2], bytes[start + 3])
}

/// Packs the first four bytes, most significant byte first.
pub fn pack_u32(bytes: &[u8]) -> (r: u32)
    requires
        bytes@.len() >= 4,
    ensures
        r == word_at(bytes@, 0),
{
    pack_at(bytes, 0)
}

fn pack_at(bytes: &[u8], start: usize) -> (r: u32)
    requires
        start + 4 <= bytes@.len(),
    ensures
        r == word_at(bytes@, start as int),
{
    (bytes[start] as u32) * 0x100_0000 + (bytes[start + 1] as u32) * 0x1_0000 + (bytes[start
        + 2] as u32) * 0x100 + (bytes[start + 3] as u32)
}

/// One write to the `DATA` register.
#[derive(Clone, Copy, Debug, PartialEq, Eq, Structural)]
pub enum CrcWrite {
    /// A 32-bit write.
    Word(u32),
    /// A 16-bit write.
    Half(u16),
    /// An 8-bit write.
    Byte(u8),
}

/// The bytes that a write feeds into the calculation, in stream order.
pub open spec fn write_bytes(w: CrcWrite) -> Seq<u8> {
    match w {
        CrcWrite::Word(x) => seq![
            (x / 0x100_0000) as u8,
            ((x / 0x1_0000) % 0x100) as u8,
            ((x / 0x100) % 0x100) as u8,
            (x % 0x100) as u8,
        ],
        CrcWrite::Half(h) => seq![(h / 0x100) as u8, (h % 0x100) as u8],
        CrcWrite::Byte(b) => seq![b],
    }
}

/// The byte stream fed by a sequence of writes.
pub open spec fn stream(ws: Seq<CrcWrite>) -> Seq<u8>
    decreases ws.len(),
{
    if ws.len() == 0 {
        Seq::empty()
    } else {
        stream(ws.drop_last()) + write_bytes(ws.last())
    }
}

/// The writes for the final one to three bytes.
pub open spec fn tail_writes(bytes: Seq<u8>) -> Seq<CrcWrite> {
    let n = bytes.len();
    let t = n - n % 4;
    if n % 4 == 3 {
        seq![CrcWrite::Half(be16(bytes[t], bytes[t + 1])), CrcWrite::Byte(bytes[t + 2])]
    } else if n % 4 == 2 {
        seq![CrcWrite::Half(be16(bytes[t], bytes[t + 1]))]
    } else if n % 4 == 1 {
        seq![CrcWrite::Byte(bytes[t])]
    } else {
        Seq::empty()
    }
}

/// The writes that submit `bytes`: one 32-bit write per full group of four
/// bytes, then the tail.
pub open spec fn crc_writes(bytes: Seq<u8>) -> Seq<CrcWrite> {
    Seq::new(bytes.len() / 4, |i: int| CrcWrite::Word(word_at(bytes, 4 * i))) + tail_writes(bytes)
}

/// The sequence of `DATA` writes that submits a byte stream.
pub fn update_writes(bytes: &[u8]) -> (r: Vec<CrcWrite>)
    ensures
        r@ == crc_writes(bytes@),
{
    let n = bytes.len();
    let words = n / 4;
    let mut writes: Vec<CrcWrite> = Vec::new();
    let mut i: usize = 0;
    while i < words
        invariant
            n == bytes@.len(),
            words == n / 4,
            i <= words,
            writes@ =~= Seq::new(i as nat, |k: int| CrcWrite::Word(word_at(bytes@, 4 * k))),
        decreases words - i,
    {
        writes.push(CrcWrite::Word(pack_at(bytes, 4 * i)));
        i = i + 1;
    }
    let t = n - n % 4;
    let rest = n % 4;
    if rest == 3 {
        writes.push(
            CrcWrite::Half((bytes[t] as u16) * 0x100 + bytes[t + 1] as u16),
        );
        writes.push(CrcWrite::Byte(bytes[t + 2]));
    } else if rest == 2 {
        writes.push(
            CrcWrite::Half((bytes[t] as u16) * 0x100 + bytes[t + 1] as u16),
        );
    } else if rest == 1 {
        writes.push(CrcWrite::Byte(bytes[t]));
    }
    writes
}

/// The number of `DATA` writes that submit `len` bytes, for a driver that
/// takes the writes one at a time with [`write_at`].
pub fn write_count(len: usize) -> (r: usize)
    ensures
        forall|bytes: Seq<u8>| bytes.len() == len ==> r == #[trigger] crc_writes(bytes).len(),
{
    let tail: usize = if len % 4 == 3 {
        2
    } else if len % 4 == 0 {
        0
    } else {
        1
    };
    len / 4 + tail
}

/// Write `i` of the sequence that submits `bytes`: what [`update_writes`]
/// gives at index `i`, without building the whole sequence.
pub fn write_at(bytes: &[u8], i: usize) -> (r: CrcWrite)
    requires
        i < crc_writes(bytes@).len(),
    ensures
        r == crc_writes(bytes@)[i as int],
{
    let n = bytes.len();
    let words = n / 4;
    if i < words {
        assert(4 * i + 4 <= n) by (nonlinear_arith)
            requires
                i < words,
                words == n / 4,
        ;
        return CrcWrite::Word(pack_at(bytes, 4 * i));
    }
    let t = n - n % 4;
    let rest = n % 4;
    if rest == 3 && i == words {
        CrcWrite::Half((bytes[t] as u16) * 0x100 + bytes[t + 1] as u16)
    } else if rest == 3 {
        CrcWrite::Byte(bytes[t + 2])
    } else if rest == 2 {
        CrcWrite::Half((bytes[t] as u16) * 0x100 + bytes[t + 1] as u16)
    } else {
        CrcWrite::Byte(bytes[t])
    }
}

/// The CRC-32 presets carry their catalogued parameters. Both use the
/// polynomial `0x04C11DB7` and start from the all-ones register
/// `0xFFFFFFFF`; CRC-32/ISO-HDLC reflects input and output and inverts the
/// result, while CRC-32/MPEG-2 only swaps the byte order of each input word
/// (so the bytes go in most significant first) and neither reflects nor
/// inverts its result. The two differ in nothing else.
pub proof fn lemma_crc32_presets()
    ensures
        mpeg2().polynomial == 0x04c1_1db7,
        mpeg2().initial_value == 0xffff_ffff,
        mpeg2().input_transpose == Transpose::Bytes,
        mpeg2().output_transpose == Transpose::Unchanged,
        mpeg2().final_xor == false,
        iso_hdlc().polynomial == 0x04c1_1db7,
        iso_hdlc().initial_value == 0xffff_ffff,
        iso_hdlc().input_transpose == Transpose::BitsAndBytes,
        iso_hdlc().output_transpose == Transpose::BitsAndBytes,
        iso_hdlc().final_xor == true,
        mpeg2().polynomial == iso_hdlc().polynomial,
        mpeg2().initial_value == iso_hdlc().initial_value,
{
}

/// The bytes of the big-endian word of four bytes are those bytes.
pub proof fn lemma_word_bytes(b0: u8, b1: u8, b2: u8, b3: u8)
    ensures
        write_bytes(CrcWrite::Word(be32(b0, b1, b2, b3))) == seq![b0, b1, b2, b3],
{
    let x = be32(b0, b1, b2, b3);
    assert(x == b0 * 0x100_0000 + b1 * 0x1_0000 + b2 * 0x100 + b3);
    assert(x / 0x100_0000 == b0 && (x / 0x1_0000) % 0x100 == b1 && (x / 0x100) % 0x100 == b2 && x
        % 0x100 == b3) by (nonlinear_arith)
        requires
            x == b0 * 0x100_0000 + b1 * 0x1_0000 + b2 * 0x100 + b3,
            b0 < 256,
            b1 < 256,
            b2 < 256,
            b3 < 256,
    ;
    assert(write_bytes(CrcWrite::Word(x)) =~= seq![b0, b1, b2, b3]);
}

proof fn lemma_half_bytes(b0: u8, b1: u8)
    ensures
        write_bytes(CrcWrite::Half(be16(b0, b1))) == seq![b0, b1],
{
    let h = be16(b0, b1);
    assert(h / 0x100 == b0 && h % 0x100 == b1) by (nonlinear_arith)
        requires
            h == b0 * 0x100 + b1,
            b0 < 256,
            b1 < 256,
    ;
    assert(write_bytes(CrcWrite::Half(h)) =~= seq![b0, b1]);
}

proof fn lemma_stream_append(a: Seq<CrcWrite>, b: Seq<CrcWrite>)
    ensures
        stream(a + b) == stream(a) + stream(b),
    decreases b.len(),
{
    if b.len() == 0 {
        assert(a + b =~= a);
        assert(stream(b) =~= Seq::<u8>::empty());
        assert(stream(a) + stream(b) =~= stream(a));
    } else {
        lemma_stream_append(a, b.drop_last());
        assert((a + b).drop_last() =~= a + b.drop_last());
        assert((a + b).last() == b.last());
        assert(stream(a) + stream(b) =~= stream(a) + stream(b.drop_last()) + write_bytes(
            b.last(),
        ));
    }
}

proof fn lemma_words_stream(bytes: Seq<u8>, k: nat)
    requires
        4 * k <= bytes.len(),
    ensures
        stream(Seq::new(k, |i: int| CrcWrite::Word(word_at(bytes, 4 * i)))) =~= bytes.subrange(
            0,
            4 * k as int,
        ),
    decreases k,
{
    let ws = Seq::new(k, |i: int| CrcWrite::Word(word_at(bytes, 4 * i)));
    if k > 0 {
        let prev = Seq::new((k - 1) as nat, |i: int| CrcWrite::Word(word_at(bytes, 4 * i)));
        lemma_words_stream(bytes, (k - 1) as nat);
        assert(ws.drop_last() =~= prev);
        let s = 4 * (k - 1);
        lemma_word_bytes(bytes[s], bytes[s + 1], bytes[s + 2], bytes[s + 3]);
        assert(bytes.subrange(0, 4 * k as int) =~= bytes.subrange(0, s) + seq![
            bytes[s],
            bytes[s + 1],
            bytes[s + 2],
            bytes[s + 3],
        ]);
    }
}

proof fn lemma_stream_small(a: CrcWrite, b: CrcWrite)
    ensures
        stream(seq![a]) == write_bytes(a),
        stream(seq![a, b]) == write_bytes(a) + write_bytes(b),
{
    assert(seq![a].drop_last() =~= Seq::<CrcWrite>::empty());
    assert(stream(Seq::<CrcWrite>::empty()) =~= Seq::<u8>::empty());
    assert(stream(seq![a]) =~= write_bytes(a));
    assert(seq![a, b].drop_last() =~= seq![a]);
}

/// The writes of [`update_writes`] feed exactly the submitted bytes, in
/// order, into the calculation: no byte is lost, reordered or padded.
pub proof fn lemma_writes_feed_the_stream(bytes: Seq<u8>)
    ensures
        stream(crc_writes(bytes)) == bytes,
{
    let n = bytes.len();
    let k = n / 4;
    let t = n - n % 4;
    let words = Seq::new(k, |i: int| CrcWrite::Word(word_at(bytes, 4 * i)));
    lemma_words_stream(bytes, k);
    lemma_stream_append(words, tail_writes(bytes));
    let tail = tail_writes(bytes);
    if n % 4 == 3 {
        lemma_half_bytes(bytes[t], bytes[t + 1]);
        lemma_stream_small(CrcWrite::Half(be16(bytes[t], bytes[t + 1])), CrcWrite::Byte(bytes[t + 2]));
        assert(stream(tail) =~= seq![bytes[t], bytes[t + 1], bytes[t + 2]]);
    } else if n % 4 == 2 {
        lemma_half_bytes(bytes[t], bytes[t + 1]);
        lemma_stream_small(CrcWrite::Half(be16(bytes[t], bytes[t + 1])), CrcWrite::Byte(0));
        assert(stream(tail) =~= seq![bytes[t], bytes[t + 1]]);
    } else if n % 4 == 1 {
        lemma_stream_small(CrcWrite::Byte(bytes[t]), CrcWrite::Byte(0));
        assert(stream(tail) =~= seq![bytes[t]]);
    } else {
        assert(stream(tail) =~= Seq::<u8>::empty());
    }
    assert(4 * k == t);
    assert(bytes =~= bytes.subrange(0, t) + stream(tail));
}

/// Whether the calculator is busy: a write was submitted and not yet seen
/// complete, or the hardware reports `BUSY`.
pub fn is_busy(pending: bool, busy: bool) -> (r: bool)
    ensures
        r == (pending || busy),
{
    pending || busy
}

/// One readiness poll. With a write pending, the driver first waits
/// [`BUSY_VISIBILITY_DELAY`] spins (returned in `.0`) so that `BUSY` is
/// visible, then reads it; the result is whether the calculator is ready
/// (`.1`) and the new pending flag (`.2`).
pub fn poll_ready(pending: bool, busy: bool) -> (r: (bool, bool, bool))
    ensures
        r.0 == pending,
        r.1 == !busy,
        r.2 == (pending && busy),
{
    if !pending {
        return (false, !busy, false);
    }
    if busy {
        (true, false, true)
    } else {
        (true, true, false)
    }
}

} // verus!
