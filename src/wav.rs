//! 16-bit PCM WAV encoding of the recorded samples, through hound's writer,
//! and the byte layout that the encoding has.
use vstd::prelude::*;

verus! {

#[verifier::external_type_specification]
#[verifier::external_body]
pub struct ExHoundError(hound::Error);

/// Why the recording could not be saved.
#[derive(Clone, Copy, Debug, PartialEq, Eq, Structural)]
pub enum EncodeError {
    /// The destination could not be opened for writing.
    FileCreateError,
    /// A sample or the header could not be written, or the samples do not
    /// fit a WAV file, or their count is not a multiple of the channels.
    WriteError,
}

/// `v` as two little-endian bytes (`0 <= v < 2^16`).
pub open spec fn le16(v: int) -> Seq<u8> {
    seq![(v % 256) as u8, ((v / 256) % 256) as u8]
}

/// `v` as four little-endian bytes (`0 <= v < 2^32`).
pub open spec fn le32(v: int) -> Seq<u8> {
    le16(v % 65536) + le16(v / 65536)
}

/// The two's-complement bit pattern of a 16-bit sample.
pub open spec fn bits16(v: i16) -> int {
    if v < 0 {
        v + 65536
    } else {
        v as int
    }
}

/// The data chunk's payload: each sample as two little-endian bytes, in order.
pub open spec fn pcm16_data(s: Seq<i16>) -> Seq<u8> {
    Seq::new(2 * s.len(), |k: int| le16(bits16(s[k / 2]))[k % 2])
}

pub open spec fn riff_id() -> Seq<u8> {
    seq![0x52u8, 0x49u8, 0x46u8, 0x46u8]
}

pub open spec fn wave_id() -> Seq<u8> {
    seq![0x57u8, 0x41u8, 0x56u8, 0x45u8]
}

pub open spec fn fmt_id() -> Seq<u8> {
    seq![0x66u8, 0x6du8, 0x74u8, 0x20u8]
}

pub open spec fn data_id() -> Seq<u8> {
    seq![0x64u8, 0x61u8, 0x74u8, 0x61u8]
}

/// More than two channels take the extensible format chunk.
pub open spec fn extensible(channels: u16) -> bool {
    channels > 2
}

/// The bytes before the first sample.
pub open spec fn header_len(channels: u16) -> int {
    if extensible(channels) {
        68
    } else {
        44
    }
}

/// The RIFF header and the fixed part of the format chunk (36 bytes): the
/// RIFF size, format tag (PCM, or the extensible tag), channels, sample
/// rate, byte rate, block alignment and 16 bits per sample.
pub open spec fn wav_prefix(sample_rate: u32, channels: u16, n: nat) -> Seq<u8> {
    riff_id() + le32(header_len(channels) - 8 + 2 * n) + wave_id() + fmt_id() + le32(
        if extensible(channels) {
            40
        } else {
            16
        },
    ) + le16(
        if extensible(channels) {
            0xfffe
        } else {
            1
        },
    ) + le16(channels as int) + le32(sample_rate as int) + le32(sample_rate * 2 * channels)
        + le16((2 * channels) % 65536) + le16(16)
}

/// `b` is a 16-bit PCM WAV file of `s` at the given rate and channels. With
/// one or two channels every byte is fixed; with more, the channel mask and
/// the sub-format identifier of the extensible chunk are left open.
pub open spec fn is_pcm16_wav(b: Seq<u8>, sample_rate: u32, channels: u16, s: Seq<i16>) -> bool {
    let h = header_len(channels);
    &&& b.len() == h + 2 * s.len()
    &&& b.subrange(0, 36) == wav_prefix(sample_rate, channels, s.len())
    &&& extensible(channels) ==> b.subrange(36, 40) == le16(22) + le16(16)
    &&& b.subrange(h - 8, h) == data_id() + le32((2 * s.len()) as int)
    &&& b.subrange(h, b.len() as int) == pcm16_data(s)
}

/// The rate and channel count are positive and the byte rate fits 32 bits.
pub open spec fn valid_format(sample_rate: u32, channels: u16) -> bool {
    sample_rate > 0 && channels > 0 && sample_rate * 2 * channels <= u32::MAX
}

/// The RIFF size of `n` samples fits its 32-bit field.
pub open spec fn fits_wav(channels: u16, n: nat) -> bool {
    header_len(channels) - 8 + 2 * n <= u32::MAX
}

/// Relies on hound::WavWriter (`new`, `write_sample`, `finalize`) writing
/// 16-bit integer samples into an in-memory cursor, which never fails to
/// write: the header as hound lays it out, then each sample little-endian;
/// `finalize` reports `UnfinishedSample` when the count is not a multiple of
/// the channels. The writer borrows the cursor until it is finalised, so the
/// whole write stands in this one item.
#[verifier::external_body]
fn hound_write_pcm16(samples: &Vec<i16>, sample_rate: u32, channels: u16) -> (r: Result<
    Vec<u8>,
    hound::Error,
>)
    requires
        valid_format(sample_rate, channels),
        fits_wav(channels, samples@.len()),
    ensures
        r is Ok <==> samples@.len() % (channels as nat) == 0,
        r is Ok ==> is_pcm16_wav(r->Ok_0@, sample_rate, channels, samples@),
{
    let spec = hound::WavSpec {
        channels,
        sample_rate,
        bits_per_sample: 16,
        sample_format: hound::SampleFormat::Int,
    };
    let mut cursor = std::io::Cursor::new(Vec::new());
    let mut writer = hound::WavWriter::new(&mut cursor, spec)?;
    for s in samples.iter() {
        writer.write_sample(*s)?;
    }
    writer.finalize()?;
    Ok(cursor.into_inner())
}

/// Encodes `samples` (interleaved, in buffer order) as a 16-bit PCM WAV
/// file. Fails with `WriteError` exactly when the count is not a multiple of
/// the channels or the data would overflow the file's 32-bit sizes.
pub fn encode_wav(samples: &Vec<i16>, sample_rate: u32, channels: u16) -> (r: Result<Vec<u8>, EncodeError>)
    requires
        valid_format(sample_rate, channels),
    ensures
        r is Ok <==> (samples@.len() % (channels as nat) == 0 && fits_wav(channels, samples@.len())),
        r is Ok ==> is_pcm16_wav(r->Ok_0@, sample_rate, channels, samples@),
        r is Err ==> r->Err_0 == EncodeError::WriteError,
{
    let header: u64 = if channels > 2 { 68 } else { 44 };
    let room: u64 = (0xffff_ffffu64 - (header - 8)) / 2;
    if samples.len() as u64 > room {
        return Err(EncodeError::WriteError);
    }
    if samples.len() % (channels as usize) != 0 {
        return Err(EncodeError::WriteError);
    }
    match hound_write_pcm16(samples, sample_rate, channels) {
        Ok(bytes) => Ok(bytes),
        Err(_) => Err(EncodeError::WriteError),
    }
}

/// The little-endian 16-bit value at `i`.
pub open spec fn u16_at(b: Seq<u8>, i: int) -> int {
    b[i] as int + 256 * b[i + 1] as int
}

/// The little-endian 32-bit value at `i`.
pub open spec fn u32_at(b: Seq<u8>, i: int) -> int {
    u16_at(b, i) + 65536 * u16_at(b, i + 2)
}

/// A 16-bit pattern read as a two's-complement sample.
pub open spec fn signed16(u: int) -> int {
    if u >= 32768 {
        u - 65536
    } else {
        u
    }
}

/// The format tag that a reader finds.
pub open spec fn wav_format_tag(b: Seq<u8>) -> int {
    u16_at(b, 20)
}

/// The channel count that a reader finds.
pub open spec fn wav_channels(b: Seq<u8>) -> int {
    u16_at(b, 22)
}

/// The sample rate that a reader finds.
pub open spec fn wav_sample_rate(b: Seq<u8>) -> int {
    u32_at(b, 24)
}

/// The bits per sample that a reader finds.
pub open spec fn wav_bits_per_sample(b: Seq<u8>) -> int {
    u16_at(b, 34)
}

/// Where a reader finds the first sample: after the RIFF header, the format
/// chunk (of the size that its header gives) and the data chunk's header.
pub open spec fn wav_data_offset(b: Seq<u8>) -> int {
    28 + u32_at(b, 16)
}

/// The data chunk's size that a reader finds.
pub open spec fn wav_data_size(b: Seq<u8>) -> int {
    u32_at(b, wav_data_offset(b) - 4)
}

/// The 16-bit samples that a reader finds in the data chunk.
pub open spec fn wav_samples(b: Seq<u8>) -> Seq<int> {
    Seq::new((wav_data_size(b) / 2) as nat, |i: int| signed16(u16_at(b, wav_data_offset(b) + 2 * i)))
}

proof fn lemma_le16(v: int)
    requires
        0 <= v < 65536,
    ensures
        le16(v)[0] as int + 256 * le16(v)[1] as int == v,
{
}

proof fn lemma_le32(b: Seq<u8>, i: int, v: int)
    requires
        0 <= v <= u32::MAX,
        0 <= i,
        i + 4 <= b.len(),
        b.subrange(i, i + 4) == le32(v),
    ensures
        u32_at(b, i) == v,
{
    lemma_le16(v % 65536);
    lemma_le16(v / 65536);
    assert(b[i] == le32(v)[0]);
    assert(b[i + 1] == le32(v)[1]);
    assert(b[i + 2] == le32(v)[2]);
    assert(b[i + 3] == le32(v)[3]);
}

proof fn lemma_u16_field(b: Seq<u8>, i: int, v: int)
    requires
        0 <= v < 65536,
        0 <= i,
        i + 2 <= b.len(),
        b.subrange(i, i + 2) == le16(v),
    ensures
        u16_at(b, i) == v,
{
    lemma_le16(v);
    assert(b[i] == le16(v)[0]);
    assert(b[i + 1] == le16(v)[1]);
}

/// Reading back an encoding gives what was encoded: the format tag, channel
/// count, sample rate and 16 bits per sample, a data chunk of two bytes per
/// sample that ends the file, and every sample unchanged. With no samples
/// the header stands alone and the data chunk is empty.
pub proof fn lemma_encoding_round_trip(b: Seq<u8>, sample_rate: u32, channels: u16, s: Seq<i16>)
    requires
        valid_format(sample_rate, channels),
        fits_wav(channels, s.len()),
        is_pcm16_wav(b, sample_rate, channels, s),
    ensures
        wav_format_tag(b) == (if extensible(channels) {
            0xfffeint
        } else {
            1int
        }),
        wav_channels(b) == channels,
        wav_sample_rate(b) == sample_rate,
        wav_bits_per_sample(b) == 16,
        wav_data_offset(b) == header_len(channels),
        wav_data_size(b) == 2 * s.len(),
        b.len() == wav_data_offset(b) + wav_data_size(b),
        wav_samples(b) == s.map_values(|v: i16| v as int),
{
    let p = wav_prefix(sample_rate, channels, s.len());
    let h = header_len(channels);
    let fmt_size: int = if extensible(channels) { 40 } else { 16 };
    let tag: int = if extensible(channels) { 0xfffe } else { 1 };
    assert(p.subrange(16, 20) =~= le32(fmt_size));
    assert(b.subrange(16, 20) =~= p.subrange(16, 20));
    lemma_le32(b, 16, fmt_size);
    assert(p.subrange(20, 22) =~= le16(tag));
    assert(b.subrange(20, 22) =~= p.subrange(20, 22));
    lemma_u16_field(b, 20, tag);
    assert(p.subrange(22, 24) =~= le16(channels as int));
    assert(b.subrange(22, 24) =~= p.subrange(22, 24));
    lemma_u16_field(b, 22, channels as int);
    assert(p.subrange(24, 28) =~= le32(sample_rate as int));
    assert(b.subrange(24, 28) =~= p.subrange(24, 28));
    lemma_le32(b, 24, sample_rate as int);
    assert(p.subrange(34, 36) =~= le16(16));
    assert(b.subrange(34, 36) =~= p.subrange(34, 36));
    lemma_u16_field(b, 34, 16);
    let d = data_id() + le32((2 * s.len()) as int);
    assert(d.subrange(4, 8) =~= le32((2 * s.len()) as int));
    assert(b.subrange(h - 4, h) =~= b.subrange(h - 8, h).subrange(4, 8));
    lemma_le32(b, h - 4, (2 * s.len()) as int);
    assert forall|i: int| 0 <= i < s.len() implies signed16(u16_at(b, h + 2 * i)) == s[i] as int by {
        let data = pcm16_data(s);
        assert(b[h + 2 * i] == data[2 * i]);
        assert(b[h + 2 * i + 1] == data[2 * i + 1]);
        assert((2 * i) / 2 == i && (2 * i) % 2 == 0);
        assert((2 * i + 1) / 2 == i && (2 * i + 1) % 2 == 1);
        lemma_le16(bits16(s[i]));
    }
    assert(wav_samples(b) =~= s.map_values(|v: i16| v as int));
}

} // verus!
