//! RIFF/WAVE container for IEEE-float samples.

use vstd::prelude::*;

verus! {

/// Size of the header that precedes the sample bytes.
pub const WAV_HEADER_LEN: usize = 44;

/// Format tag of IEEE-float samples in the `fmt ` chunk.
pub const FORMAT_TAG_IEEE_FLOAT: u16 = 3;

/// Size of the `fmt ` chunk body.
pub const FMT_CHUNK_LEN: u32 = 16;

/// The part of the RIFF chunk size that is not sample data.
pub const RIFF_OVERHEAD: u32 = 36;

/// Why a container could not be written.
#[derive(Debug, Clone, Copy, PartialEq, Eq, Structural)]
pub enum WavError {
    /// The byte rate or the block alignment does not fit its header field.
    FormatOutOfRange,
    /// The sample data is too long for the 32-bit size fields.
    DataTooLong,
}

/// Two bytes, least significant first.
pub open spec fn le16(v: u16) -> Seq<u8> {
    seq![(v % 256) as u8, (v / 256) as u8]
}

/// Four bytes, least significant first.
pub open spec fn le32(v: u32) -> Seq<u8> {
    seq![
        (v % 256) as u8,
        ((v / 256) % 256) as u8,
        ((v / 65536) % 256) as u8,
        (v / 16777216) as u8,
    ]
}

/// The little-endian 32-bit field that starts at `at`.
pub open spec fn read_le32(b: Seq<u8>, at: int) -> int {
    b[at] + 256 * b[at + 1] + 65536 * b[at + 2] + 16777216 * b[at + 3]
}

/// The little-endian 16-bit field that starts at `at`.
pub open spec fn read_le16(b: Seq<u8>, at: int) -> int {
    b[at] + 256 * b[at + 1]
}

pub open spec fn tag_riff() -> Seq<u8> {
    seq![0x52u8, 0x49u8, 0x46u8, 0x46u8]
}

pub open spec fn tag_wave() -> Seq<u8> {
    seq![0x57u8, 0x41u8, 0x56u8, 0x45u8]
}

pub open spec fn tag_fmt() -> Seq<u8> {
    seq![0x66u8, 0x6du8, 0x74u8, 0x20u8]
}

pub open spec fn tag_data() -> Seq<u8> {
    seq![0x64u8, 0x61u8, 0x74u8, 0x61u8]
}

/// Bytes per second of the stream.
pub open spec fn byte_rate(channels: u16, sample_rate: u32, bits_per_sample: u16) -> int {
    sample_rate * channels * bits_per_sample / 8
}

/// Bytes per frame (one sample of every channel).
pub open spec fn block_align(channels: u16, bits_per_sample: u16) -> int {
    channels * bits_per_sample / 8
}

/// The derived header fields fit their 32-bit and 16-bit slots.
pub open spec fn format_fits(channels: u16, sample_rate: u32, bits_per_sample: u16) -> bool {
    &&& byte_rate(channels, sample_rate, bits_per_sample) <= u32::MAX
    &&& block_align(channels, bits_per_sample) <= u16::MAX
}

/// `data_len` bytes of samples fit the RIFF chunk size field.
pub open spec fn data_fits(data_len: int) -> bool {
    data_len + RIFF_OVERHEAD <= u32::MAX
}

/// The 44 header bytes for `data_len` bytes of samples.
pub open spec fn header_bytes(
    data_len: u32,
    channels: u16,
    sample_rate: u32,
    bits_per_sample: u16,
) -> Seq<u8> {
    tag_riff() + le32((data_len + RIFF_OVERHEAD) as u32) + tag_wave() + tag_fmt() + le32(
        FMT_CHUNK_LEN,
    ) + le16(FORMAT_TAG_IEEE_FLOAT) + le16(channels) + le32(sample_rate) + le32(
        byte_rate(channels, sample_rate, bits_per_sample) as u32,
    ) + le16(block_align(channels, bits_per_sample) as u16) + le16(bits_per_sample) + tag_data()
        + le32(data_len)
}

/// The complete container: header, then the samples verbatim.
pub open spec fn container_bytes(
    samples: Seq<u8>,
    channels: u16,
    sample_rate: u32,
    bits_per_sample: u16,
) -> Seq<u8> {
    header_bytes(samples.len() as u32, channels, sample_rate, bits_per_sample) + samples
}

/// Reading back a field written by `le32` gives the value.
pub proof fn lemma_le32_round_trip(v: u32)
    ensures
        read_le32(le32(v), 0) == v,
{
    let x = v as int;
    assert(x / 65536 == (x / 256) / 256) by (nonlinear_arith)
        requires
            0 <= x,
    {
        vstd::arithmetic::div_mod::lemma_div_denominator(x, 256, 256);
    }
    assert(x / 16777216 == ((x / 256) / 256) / 256) by (nonlinear_arith)
        requires
            0 <= x,
    {
        vstd::arithmetic::div_mod::lemma_div_denominator(x, 256, 256);
        vstd::arithmetic::div_mod::lemma_div_denominator(x, 65536, 256);
    }
    let r1 = x / 256;
    let r2 = r1 / 256;
    assert(x == x % 256 + 256 * r1);
    assert(r1 == r1 % 256 + 256 * r2);
    assert(r2 == r2 % 256 + 256 * (r2 / 256));
    assert(r2 / 256 < 256);
}

/// Reading back a field written by `le16` gives the value.
pub proof fn lemma_le16_round_trip(v: u16)
    ensures
        read_le16(le16(v), 0) == v,
{
}

fn push_le16(out: &mut Vec<u8>, v: u16)
    ensures
        final(out)@ == old(out)@ + le16(v),
{
    out.push((v % 256) as u8);
    out.push((v / 256) as u8);
    assert(final(out)@ =~= old(out)@ + le16(v));
}

fn push_le32(out: &mut Vec<u8>, v: u32)
    ensures
        final(out)@ == old(out)@ + le32(v),
{
    out.push((v % 256) as u8);
    out.push(((v / 256) % 256) as u8);
    out.push(((v / 65536) % 256) as u8);
    out.push((v / 16777216) as u8);
    assert(final(out)@ =~= old(out)@ + le32(v));
}

fn push_tag(out: &mut Vec<u8>, a: u8, b: u8, c: u8, d: u8)
    ensures
        final(out)@ == old(out)@ + seq![a, b, c, d],
{
    out.push(a);
    out.push(b);
    out.push(c);
    out.push(d);
    assert(final(out)@ =~= old(out)@ + seq![a, b, c, d]);
}

/// The 44 header bytes for `data_len` bytes of samples: `RIFF`, the chunk
/// size `36 + data_len`, `WAVE`, a 16-byte `fmt ` chunk (format tag 3,
/// channels, sample rate, byte rate, block alignment, bits per sample),
/// `data` and `data_len`, every field little-endian.
pub fn wav_header(data_len: u32, channels: u16, sample_rate: u32, bits_per_sample: u16) -> (r:
    Result<Vec<u8>, WavError>)
    ensures
        r is Ok <==> format_fits(channels, sample_rate, bits_per_sample) && data_fits(
            data_len as int,
        ),
        r matches Ok(h) ==> h@ == header_bytes(data_len, channels, sample_rate, bits_per_sample),
        r == Err::<Vec<u8>, WavError>(WavError::FormatOutOfRange) <==> !format_fits(
            channels,
            sample_rate,
            bits_per_sample,
        ),
        r == Err::<Vec<u8>, WavError>(WavError::DataTooLong) <==> format_fits(
            channels,
            sample_rate,
            bits_per_sample,
        ) && !data_fits(data_len as int),
{
    assert(sample_rate * channels <= u32::MAX * u16::MAX) by (nonlinear_arith)
        requires
            sample_rate <= u32::MAX,
            channels <= u16::MAX,
    ;
    assert(sample_rate * channels * bits_per_sample <= u64::MAX) by (nonlinear_arith)
        requires
            sample_rate <= u32::MAX,
            channels <= u16::MAX,
            bits_per_sample <= u16::MAX,
    ;
    assert(channels * bits_per_sample <= u32::MAX) by (nonlinear_arith)
        requires
            channels <= u16::MAX,
            bits_per_sample <= u16::MAX,
    ;
    let rate_wide: u64 = sample_rate as u64 * channels as u64;
    let rate_wide: u64 = rate_wide * bits_per_sample as u64 / 8;
    let align_wide: u32 = channels as u32 * bits_per_sample as u32 / 8;
    if rate_wide > u32::MAX as u64 || align_wide > u16::MAX as u32 {
        return Err(WavError::FormatOutOfRange);
    }
    if data_len > u32::MAX - RIFF_OVERHEAD {
        return Err(WavError::DataTooLong);
    }
    let rate = rate_wide as u32;
    let align = align_wide as u16;
    let mut h: Vec<u8> = Vec::with_capacity(WAV_HEADER_LEN);
    push_tag(&mut h, 0x52, 0x49, 0x46, 0x46);
    push_le32(&mut h, data_len + RIFF_OVERHEAD);
    push_tag(&mut h, 0x57, 0x41, 0x56, 0x45);
    push_tag(&mut h, 0x66, 0x6d, 0x74, 0x20);
    push_le32(&mut h, FMT_CHUNK_LEN);
    push_le16(&mut h, FORMAT_TAG_IEEE_FLOAT);
    push_le16(&mut h, channels);
    push_le32(&mut h, sample_rate);
    push_le32(&mut h, rate);
    push_le16(&mut h, align);
    push_le16(&mut h, bits_per_sample);
    push_tag(&mut h, 0x64, 0x61, 0x74, 0x61);
    push_le32(&mut h, data_len);
    assert(h@ =~= header_bytes(data_len, channels, sample_rate, bits_per_sample));
    Ok(h)
}

/// The complete container for `samples`: the header of `wav_header`
/// followed by the sample bytes verbatim. No resampling, and no check that
/// the length is a whole number of frames.
pub fn encode_wav(samples: &[u8], channels: u16, sample_rate: u32, bits_per_sample: u16) -> (r:
    Result<Vec<u8>, WavError>)
    ensures
        r is Ok <==> format_fits(channels, sample_rate, bits_per_sample) && data_fits(
            samples@.len() as int,
        ),
        r matches Ok(w) ==> w@ == container_bytes(samples@, channels, sample_rate, bits_per_sample),
        r == Err::<Vec<u8>, WavError>(WavError::FormatOutOfRange) <==> !format_fits(
            channels,
            sample_rate,
            bits_per_sample,
        ),
        r == Err::<Vec<u8>, WavError>(WavError::DataTooLong) <==> format_fits(
            channels,
            sample_rate,
            bits_per_sample,
        ) && !data_fits(samples@.len() as int),
{
    let n = samples.len();
    if n as u64 > (u32::MAX - RIFF_OVERHEAD) as u64 {
        // The header reports the same error, after the format check.
        let h = wav_header(u32::MAX, channels, sample_rate, bits_per_sample);
        return match h {
            Err(e) => Err(e),
            Ok(_) => Err(WavError::DataTooLong),
        };
    }
    let mut out = match wav_header(n as u32, channels, sample_rate, bits_per_sample) {
        Ok(h) => h,
        Err(e) => return Err(e),
    };
    let ghost head = out@;
    let mut i: usize = 0;
    while i < n
        invariant
            n == samples@.len(),
            i <= n,
            out@ == head + samples@.subrange(0, i as int),
        decreases n - i,
    {
        out.push(samples[i]);
        i = i + 1;
        assert(out@ =~= head + samples@.subrange(0, i as int));
    }
    assert(samples@.subrange(0, n as int) =~= samples@);
    Ok(out)
}

/// Reading the chunk size and byte rate fields back out of a header gives
/// `36 + data_len` and `sample_rate * channels * bits / 8`.
pub proof fn lemma_header_fields(
    data_len: u32,
    channels: u16,
    sample_rate: u32,
    bits_per_sample: u16,
)
    requires
        format_fits(channels, sample_rate, bits_per_sample),
        data_fits(data_len as int),
    ensures
        header_bytes(data_len, channels, sample_rate, bits_per_sample).len() == WAV_HEADER_LEN,
        read_le32(header_bytes(data_len, channels, sample_rate, bits_per_sample), 4) == data_len
            + RIFF_OVERHEAD,
        read_le32(header_bytes(data_len, channels, sample_rate, bits_per_sample), 28)
            == byte_rate(channels, sample_rate, bits_per_sample),
        read_le16(header_bytes(data_len, channels, sample_rate, bits_per_sample), 20)
            == FORMAT_TAG_IEEE_FLOAT,
        read_le32(header_bytes(data_len, channels, sample_rate, bits_per_sample), 40) == data_len,
{
    let h = header_bytes(data_len, channels, sample_rate, bits_per_sample);
    let chunk = (data_len + RIFF_OVERHEAD) as u32;
    let rate = byte_rate(channels, sample_rate, bits_per_sample) as u32;
    assert(byte_rate(channels, sample_rate, bits_per_sample) >= 0) by (nonlinear_arith)
        requires
            sample_rate >= 0,
            channels >= 0,
            bits_per_sample >= 0,
    ;
    lemma_le32_round_trip(chunk);
    lemma_le32_round_trip(rate);
    lemma_le32_round_trip(data_len);
    lemma_le16_round_trip(FORMAT_TAG_IEEE_FLOAT);
    assert(h.subrange(4, 8) =~= le32(chunk));
    assert(h.subrange(28, 32) =~= le32(rate));
    assert(h.subrange(20, 22) =~= le16(FORMAT_TAG_IEEE_FLOAT));
    assert(h.subrange(40, 44) =~= le32(data_len));
}

/// For any sample data, a stereo, 44100 Hz, 32-bit container carries a RIFF
/// chunk size of `36 + data_len` and a byte rate of
/// `sample_rate * channels * bits / 8`.
pub proof fn lemma_stereo_float_header(samples: Seq<u8>)
    requires
        data_fits(samples.len() as int),
    ensures
        read_le32(container_bytes(samples, 2, 44100, 32), 4) == samples.len() + 36,
        read_le32(container_bytes(samples, 2, 44100, 32), 28) == 44100 * 2 * 32 / 8,
{
    let h = header_bytes(samples.len() as u32, 2, 44100, 32);
    let w = container_bytes(samples, 2, 44100, 32);
    lemma_header_fields(samples.len() as u32, 2, 44100, 32);
    assert(w.subrange(0, 44) =~= h);
}

} // verus!
