//! Wave formats of the capture device and decoding of the raw PCM bytes
//! that the device hands out into integer sample values.
use vstd::prelude::*;

verus! {

/// `wFormatTag` of a `WAVEFORMATEXTENSIBLE` header.
pub const WAVE_FORMAT_EXTENSIBLE: u16 = 0xFFFE;
/// `wFormatTag` of IEEE floating-point samples.
pub const WAVE_FORMAT_IEEE_FLOAT: u16 = 0x0003;
/// `KSDATAFORMAT_SUBTYPE_IEEE_FLOAT`, the sub-format GUID of float
/// samples, as its 128-bit value.
pub const KSDATAFORMAT_SUBTYPE_IEEE_FLOAT: u128 = 0x00000003_0000_0010_8000_00aa00389b71;

/// Tells whether a mix format carries IEEE float samples. An extensible
/// header says so through its sub-format, which is only present (and only
/// passed) for such a header; any other header says so through its tag.
pub fn is_float_format(format_tag: u16, sub_format: Option<u128>) -> (r: bool)
    ensures
        r == (if format_tag == WAVE_FORMAT_EXTENSIBLE {
            sub_format == Some(KSDATAFORMAT_SUBTYPE_IEEE_FLOAT)
        } else {
            format_tag == WAVE_FORMAT_IEEE_FLOAT
        }),
{
    if format_tag == WAVE_FORMAT_EXTENSIBLE {
        match sub_format {
            Some(g) => g == KSDATAFORMAT_SUBTYPE_IEEE_FLOAT,
            None => false,
        }
    } else {
        format_tag == WAVE_FORMAT_IEEE_FLOAT
    }
}

/// The sample encodings that the capture path understands.
#[derive(Clone, Copy, Debug, PartialEq, Eq, Structural)]
pub enum SampleFormat {
    /// 32-bit IEEE float.
    Float32,
    /// 16-bit signed integer.
    Int16,
    /// Packed 24-bit signed integer, three bytes per sample.
    Int24,
    /// 32-bit signed integer.
    Int32,
    /// Anything else; decoded as silence.
    Unsupported,
}

/// The encoding named by a float flag and a sample width in bits.
pub open spec fn format_of(is_float: bool, bits: u16) -> SampleFormat {
    if is_float && bits == 32 {
        SampleFormat::Float32
    } else if !is_float && bits == 16 {
        SampleFormat::Int16
    } else if !is_float && bits == 32 {
        SampleFormat::Int32
    } else if !is_float && bits == 24 {
        SampleFormat::Int24
    } else {
        SampleFormat::Unsupported
    }
}

/// Number of bytes one sample of the encoding takes (none for silence).
pub open spec fn width_of(f: SampleFormat) -> nat {
    match f {
        SampleFormat::Float32 => 4,
        SampleFormat::Int16 => 2,
        SampleFormat::Int24 => 3,
        SampleFormat::Int32 => 4,
        SampleFormat::Unsupported => 0,
    }
}

/// Picks the encoding from the float flag and the bits per sample.
pub fn sample_format(is_float: bool, bits: u16) -> (f: SampleFormat)
    ensures
        f == format_of(is_float, bits),
{
    if is_float && bits == 32 {
        SampleFormat::Float32
    } else if !is_float && bits == 16 {
        SampleFormat::Int16
    } else if !is_float && bits == 32 {
        SampleFormat::Int32
    } else if !is_float && bits == 24 {
        SampleFormat::Int24
    } else {
        SampleFormat::Unsupported
    }
}

impl SampleFormat {
    /// Number of bytes one sample takes.
    pub fn bytes_per_sample(self) -> (n: usize)
        ensures
            n == width_of(self),
    {
        match self {
            SampleFormat::Float32 => 4,
            SampleFormat::Int16 => 2,
            SampleFormat::Int24 => 3,
            SampleFormat::Int32 => 4,
            SampleFormat::Unsupported => 0,
        }
    }
}

/// Two little-endian bytes read as a two's-complement integer.
pub open spec fn signed_le2(b0: u8, b1: u8) -> int {
    let u = b0 as int + 256 * (b1 as int);
    if b1 >= 128 { u - 0x1_0000 } else { u }
}

/// Three little-endian bytes read as a two's-complement integer.
pub open spec fn signed_le3(b0: u8, b1: u8, b2: u8) -> int {
    let u = b0 as int + 256 * (b1 as int) + 0x1_0000 * (b2 as int);
    if b2 >= 128 { u - 0x100_0000 } else { u }
}

/// Four little-endian bytes read as a two's-complement integer.
pub open spec fn signed_le4(b0: u8, b1: u8, b2: u8, b3: u8) -> int {
    let u = b0 as int + 256 * (b1 as int) + 0x1_0000 * (b2 as int) + 0x100_0000 * (b3 as int);
    if b3 >= 128 { u - 0x1_0000_0000 } else { u }
}

/// The value of sample `i` of a little-endian byte stream: the integer
/// sample itself, or for float samples their 32 bits read as an `i32`
/// (which gives the float back bit for bit); silence for an unsupported
/// encoding.
pub open spec fn sample_value(f: SampleFormat, b: Seq<u8>, i: int) -> int {
    match f {
        SampleFormat::Int16 => signed_le2(b[2 * i], b[2 * i + 1]),
        SampleFormat::Int24 => signed_le3(b[3 * i], b[3 * i + 1], b[3 * i + 2]),
        SampleFormat::Int32 | SampleFormat::Float32 => signed_le4(
            b[4 * i],
            b[4 * i + 1],
            b[4 * i + 2],
            b[4 * i + 3],
        ),
        SampleFormat::Unsupported => 0,
    }
}

/// The full scale of an encoding: decoded samples lie in
/// `-full_scale..full_scale`.
pub open spec fn full_scale(f: SampleFormat) -> int {
    match f {
        SampleFormat::Int16 => 0x8000,
        SampleFormat::Int24 => 0x80_0000,
        SampleFormat::Int32 | SampleFormat::Float32 => 0x8000_0000,
        SampleFormat::Unsupported => 1,
    }
}

/// Every decoded sample lies within the full scale of its encoding, and
/// its sign is the top bit of its last byte.
pub proof fn lemma_sample_value_in_range(f: SampleFormat, b: Seq<u8>, i: int)
    ensures
        -full_scale(f) <= sample_value(f, b, i) < full_scale(f),
        f != SampleFormat::Unsupported ==> (sample_value(f, b, i) < 0 <==> b[width_of(f) * i
            + width_of(f) - 1] >= 128),
{
}

/// A decoded sample is the one number within the encoding's full scale
/// that agrees with its bytes read as an unsigned little-endian number,
/// modulo the number of values the bytes can hold: so it is the bytes'
/// two's-complement value, nothing else.
pub proof fn lemma_sample_value_is_twos_complement(f: SampleFormat, b: Seq<u8>, i: int)
    requires
        f != SampleFormat::Unsupported,
    ensures
        ({
            let w = width_of(f) as int;
            let s = w * i;
            let unsigned = if w == 2 {
                b[s] as int + 256 * (b[s + 1] as int)
            } else if w == 3 {
                b[s] as int + 256 * (b[s + 1] as int) + 65536 * (b[s + 2] as int)
            } else {
                b[s] as int + 256 * (b[s + 1] as int) + 65536 * (b[s + 2] as int) + 16777216 * (b[s
                    + 3] as int)
            };
            let span = if w == 2 { 0x1_0000int } else if w == 3 { 0x100_0000int } else { 0x1_0000_0000int };
            &&& (sample_value(f, b, i) == unsigned || sample_value(f, b, i) == unsigned - span)
            &&& -(span / 2) <= sample_value(f, b, i) < span / 2
        }),
{
}

/// A supported encoding is exactly one of the four that the capture path
/// reads, and its sample width in bytes matches the bits per sample.
pub proof fn lemma_format_matches_bits(is_float: bool, bits: u16)
    ensures
        format_of(is_float, bits) != SampleFormat::Unsupported <==> ((is_float && bits == 32) || (
        !is_float && (bits == 16 || bits == 24 || bits == 32))),
        format_of(is_float, bits) != SampleFormat::Unsupported ==> width_of(format_of(is_float, bits))
            * 8 == bits,
        format_of(is_float, bits) == SampleFormat::Float32 <==> (is_float && bits == 32),
        width_of(SampleFormat::Unsupported) == 0,
{
}

/// Decodes a 16-bit little-endian sample.
fn decode_i16(b0: u8, b1: u8) -> (v: i32)
    ensures
        v == signed_le2(b0, b1),
{
    let u: i32 = (b0 as i32) + 256 * (b1 as i32);
    if b1 >= 128 {
        u - 0x1_0000
    } else {
        u
    }
}

/// Decodes a packed 24-bit little-endian sample by assembling its bits
/// and extending the sign bit (bit 23) over the top byte.
fn decode_i24(b0: u8, b1: u8, b2: u8) -> (v: i32)
    ensures
        v == signed_le3(b0, b1, b2),
{
    let x0: i32 = b0 as i32;
    let x1: i32 = b1 as i32;
    let x2: i32 = b2 as i32;
    let val: i32 = x0 | (x1 << 8i32) | (x2 << 16i32);
    proof {
        assert(x0 | (x1 << 8i32) | (x2 << 16i32) == x0 + 256 * x1 + 65536 * x2) by (bit_vector)
            requires 0 <= x0 < 256, 0 <= x1 < 256, 0 <= x2 < 256;
        assert((x0 | (x1 << 8i32) | (x2 << 16i32)) & 0x800000i32 != 0 <==> x2 >= 128) by (bit_vector)
            requires 0 <= x0 < 256, 0 <= x1 < 256, 0 <= x2 < 256;
    }
    if val & 0x800000i32 != 0 {
        let ext: i32 = val | !0xFFFFFFi32;
        proof {
            assert(val | !0xFFFFFFi32 == val - 0x1000000) by (bit_vector)
                requires 0x800000 <= val < 0x1000000;
        }
        ext
    } else {
        val
    }
}

/// Decodes a 32-bit little-endian word as a two's-complement integer.
fn decode_i32(b0: u8, b1: u8, b2: u8, b3: u8) -> (v: i32)
    ensures
        v == signed_le4(b0, b1, b2, b3),
{
    let low: u32 = (b0 as u32) + 256 * (b1 as u32) + 0x1_0000 * (b2 as u32);
    if b3 >= 128 {
        let high: u32 = (b3 - 128) as u32;
        let u: u32 = low + 0x100_0000 * high;
        (u as i32) + i32::MIN
    } else {
        let u: u32 = low + 0x100_0000 * (b3 as u32);
        u as i32
    }
}

/// Decodes `count` samples of the given encoding from the start of a
/// little-endian byte buffer. An unsupported encoding decodes to `count`
/// samples of silence without reading the buffer.
pub fn decode_samples(bytes: &[u8], count: usize, format: SampleFormat) -> (out: Vec<i32>)
    requires
        count * width_of(format) <= bytes@.len(),
    ensures
        out@.len() == count,
        forall|i: int| 0 <= i < count ==> out@[i] as int == #[trigger] sample_value(format, bytes@, i),
{
    let w = format.bytes_per_sample();
    let mut out: Vec<i32> = Vec::new();
    let mut i: usize = 0;
    while i < count
        invariant
            i <= count,
            w == width_of(format),
            count * w <= bytes@.len(),
            out@.len() == i,
            forall|j: int| 0 <= j < i ==> out@[j] as int == #[trigger] sample_value(format, bytes@, j),
        decreases count - i,
    {
        proof {
            assert(i * w + w <= count * w) by (nonlinear_arith)
                requires i < count;
            assert(bytes@.len() == bytes.len());
        }
        let s: usize = i * w;
        let v: i32 = match format {
            SampleFormat::Int16 => decode_i16(bytes[s], bytes[s + 1]),
            SampleFormat::Int24 => decode_i24(bytes[s], bytes[s + 1], bytes[s + 2]),
            SampleFormat::Int32 | SampleFormat::Float32 => decode_i32(
                bytes[s],
                bytes[s + 1],
                bytes[s + 2],
                bytes[s + 3],
            ),
            SampleFormat::Unsupported => 0,
        };
        out.push(v);
        i = i + 1;
    }
    out
}

} // verus!
