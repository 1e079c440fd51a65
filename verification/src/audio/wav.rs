//! The audio container: 32-bit IEEE-float samples in a RIFF/WAVE file with a
//! `WAVEFORMATEXTENSIBLE` format chunk.
//!
//! Because every sample is 32 bits wide, the extensible format chunk is
//! always required, so the container has a fixed 68-byte prefix followed by
//! the raw little-endian sample payload. `wav_bytes` is the byte-exact
//! specification of that layout; `encode_wav` produces it, and `parse_wav`
//! reads it back, with `lemma_wav_round_trip` proving that decoding an
//! encoded container recovers the header fields and every sample.

use vstd::arithmetic::div_mod::lemma_div_denominator;
use vstd::arithmetic::div_mod::lemma_fundamental_div_mod;
use vstd::prelude::*;

verus! {

/// The two bytes of `x mod 2^16`, least significant first.
pub open spec fn le16(x: int) -> Seq<u8> {
    seq![(x % 256) as u8, ((x / 256) % 256) as u8]
}

/// The four bytes of `x mod 2^32`, least significant first.
pub open spec fn le32(x: int) -> Seq<u8> {
    seq![
        (x % 256) as u8,
        ((x / 256) % 256) as u8,
        ((x / 65536) % 256) as u8,
        ((x / 16777216) % 256) as u8,
    ]
}

/// The speaker-position mask: one bit per channel, capped at the 18
/// assignable positions.
pub open spec fn channel_mask(channels: u16) -> u32 {
    if channels >= 18 {
        0x3ffff
    } else {
        (((1u32 << (channels as u32)) as int) - 1) as u32
    }
}

/// The sample payload: each sample's bit pattern as four little-endian
/// bytes, in order.
pub open spec fn sample_bytes(samples: Seq<u32>) -> Seq<u8>
    decreases samples.len(),
{
    if samples.len() == 0 {
        Seq::empty()
    } else {
        sample_bytes(samples.drop_last()) + le32(samples.last() as int)
    }
}

/// The SubFormat GUID that marks IEEE-float PCM data.
pub open spec fn float_format_guid() -> Seq<u8> {
    seq![
        0x03u8,
        0x00,
        0x00,
        0x00,
        0x00,
        0x00,
        0x10,
        0x00,
        0x80,
        0x00,
        0x00,
        0xaa,
        0x00,
        0x38,
        0x9b,
        0x71,
    ]
}

/// The 68-byte container prefix for `data_len` bytes of 32-bit float
/// samples: the RIFF chunk, the 40-byte extensible format chunk, and the
/// data chunk header.
pub open spec fn wav_header(channels: u16, sample_rate: u32, data_len: int) -> Seq<u8> {
    seq![0x52u8, 0x49, 0x46, 0x46]  // "RIFF"
     + le32(data_len + 60)  // remaining file size
     + seq![0x57u8, 0x41, 0x56, 0x45]  // "WAVE"
     + seq![0x66u8, 0x6d, 0x74, 0x20]  // "fmt "
     + le32(40)  // format chunk size
     + le16(0xfffe)  // WAVE_FORMAT_EXTENSIBLE
     + le16(channels as int)
     + le32(sample_rate as int)
     + le32(4 * (channels as int) * (sample_rate as int))  // bytes per second
     + le16(4 * (channels as int))  // frame size in bytes
     + le16(32)  // container bits per sample
     + le16(22)  // extension size
     + le16(32)  // valid bits per sample
     + le32(channel_mask(channels) as int)
     + float_format_guid()
     + seq![0x64u8, 0x61, 0x74, 0x61]  // "data"
     + le32(data_len)
}

/// The complete container for the given samples and configuration.
pub open spec fn wav_bytes(samples: Seq<u32>, channels: u16, sample_rate: u32) -> Seq<u8> {
    wav_header(channels, sample_rate, 4 * (samples.len() as int)) + sample_bytes(samples)
}

/// The value of two little-endian bytes.
pub open spec fn le16_val(b: Seq<u8>) -> int {
    b[0] + 256 * b[1]
}

/// The value of four little-endian bytes.
pub open spec fn le32_val(b: Seq<u8>) -> int {
    b[0] + 256 * b[1] + 65536 * b[2] + 16777216 * b[3]
}

/// The samples read back from a payload: every aligned group of four bytes,
/// little-endian.
pub open spec fn parse_samples(b: Seq<u8>) -> Seq<u32>
    decreases b.len(),
{
    if b.len() < 4 {
        Seq::empty()
    } else {
        parse_samples(b.subrange(0, b.len() as int - 4)).push(
            le32_val(b.subrange(b.len() as int - 4, b.len() as int)) as u32,
        )
    }
}

/// Reads a container back: checks the chunk tags, the sizes, and every
/// field that marks 32-bit IEEE-float data, then yields the channel count,
/// the sample rate, and the samples.
pub open spec fn parse_wav(b: Seq<u8>) -> Option<(u16, u32, Seq<u32>)> {
    if b.len() < 68 {
        None
    } else if b.subrange(0, 4) != seq![0x52u8, 0x49, 0x46, 0x46] {
        None
    } else if le32_val(b.subrange(4, 8)) != b.len() - 8 {
        None
    } else if b.subrange(8, 12) != seq![0x57u8, 0x41, 0x56, 0x45] {
        None
    } else if b.subrange(12, 16) != seq![0x66u8, 0x6d, 0x74, 0x20] {
        None
    } else if le32_val(b.subrange(16, 20)) != 40 {
        None
    } else if le16_val(b.subrange(20, 22)) != 0xfffe {
        None
    } else if le16_val(b.subrange(34, 36)) != 32 {
        None
    } else if le16_val(b.subrange(36, 38)) != 22 {
        None
    } else if le16_val(b.subrange(38, 40)) != 32 {
        None
    } else if b.subrange(44, 60) != float_format_guid() {
        None
    } else if b.subrange(60, 64) != seq![0x64u8, 0x61, 0x74, 0x61] {
        None
    } else if le32_val(b.subrange(64, 68)) != b.len() - 68 {
        None
    } else if (b.len() - 68) % 4 != 0 {
        None
    } else {
        Some(
            (
                le16_val(b.subrange(22, 24)) as u16,
                le32_val(b.subrange(24, 28)) as u32,
                parse_samples(b.skip(68)),
            ),
        )
    }
}

/// Two little-endian bytes read back give the value they were made from.
pub proof fn lemma_le16_round_trip(x: int)
    requires
        0 <= x < 65536,
    ensures
        le16_val(le16(x)) == x,
{
    lemma_fundamental_div_mod(x, 256);
    vstd::arithmetic::div_mod::lemma_small_mod((x / 256) as nat, 256);
}

/// Four little-endian bytes read back give the value they were made from.
pub proof fn lemma_le32_round_trip(x: int)
    requires
        0 <= x < 0x1_0000_0000,
    ensures
        le32_val(le32(x)) == x,
{
    lemma_fundamental_div_mod(x, 256);
    lemma_fundamental_div_mod(x / 256, 256);
    lemma_fundamental_div_mod(x / 65536, 256);
    lemma_div_denominator(x, 256, 256);
    lemma_div_denominator(x, 65536, 256);
    vstd::arithmetic::div_mod::lemma_small_mod((x / 16777216) as nat, 256);
}

/// The payload is four bytes per sample.
pub proof fn lemma_sample_bytes_len(samples: Seq<u32>)
    ensures
        sample_bytes(samples).len() == 4 * samples.len(),
    decreases samples.len(),
{
    if samples.len() > 0 {
        lemma_sample_bytes_len(samples.drop_last());
    }
}

/// Reading a payload back recovers every sample.
pub proof fn lemma_parse_sample_bytes(samples: Seq<u32>)
    ensures
        parse_samples(sample_bytes(samples)) == samples,
    decreases samples.len(),
{
    if samples.len() == 0 {
        assert(parse_samples(sample_bytes(samples)) =~= samples);
    } else {
        let rest = samples.drop_last();
        let sb = sample_bytes(samples);
        lemma_sample_bytes_len(rest);
        lemma_sample_bytes_len(samples);
        assert(sb.subrange(0, sb.len() as int - 4) =~= sample_bytes(rest));
        assert(sb.subrange(sb.len() as int - 4, sb.len() as int) =~= le32(
            samples.last() as int,
        ));
        lemma_parse_sample_bytes(rest);
        lemma_le32_round_trip(samples.last() as int);
        assert(rest.push(samples.last()) =~= samples);
    }
}

/// The tags and sizes in the first 20 header bytes.
#[verifier::rlimit(50)]
proof fn lemma_wav_header_tags(channels: u16, sample_rate: u32, data_len: int)
    ensures
        wav_header(channels, sample_rate, data_len).len() == 68,
        wav_header(channels, sample_rate, data_len).subrange(0, 4) == seq![
            0x52u8,
            0x49,
            0x46,
            0x46,
        ],
        wav_header(channels, sample_rate, data_len).subrange(4, 8) == le32(data_len + 60),
        wav_header(channels, sample_rate, data_len).subrange(8, 12) == seq![
            0x57u8,
            0x41,
            0x56,
            0x45,
        ],
        wav_header(channels, sample_rate, data_len).subrange(12, 16) == seq![
            0x66u8,
            0x6d,
            0x74,
            0x20,
        ],
        wav_header(channels, sample_rate, data_len).subrange(16, 20) == le32(40),
{
    let h = wav_header(channels, sample_rate, data_len);
    assert(h.subrange(0, 4) =~= seq![0x52u8, 0x49, 0x46, 0x46]);
    assert(h.subrange(4, 8) =~= le32(data_len + 60));
    assert(h.subrange(8, 12) =~= seq![0x57u8, 0x41, 0x56, 0x45]);
    assert(h.subrange(12, 16) =~= seq![0x66u8, 0x6d, 0x74, 0x20]);
    assert(h.subrange(16, 20) =~= le32(40));
}

/// The format fields in header bytes 20 to 40.
#[verifier::rlimit(50)]
proof fn lemma_wav_header_format(channels: u16, sample_rate: u32, data_len: int)
    ensures
        wav_header(channels, sample_rate, data_len).subrange(20, 22) == le16(0xfffe),
        wav_header(channels, sample_rate, data_len).subrange(22, 24) == le16(channels as int),
        wav_header(channels, sample_rate, data_len).subrange(24, 28) == le32(sample_rate as int),
        wav_header(channels, sample_rate, data_len).subrange(34, 36) == le16(32),
        wav_header(channels, sample_rate, data_len).subrange(36, 38) == le16(22),
        wav_header(channels, sample_rate, data_len).subrange(38, 40) == le16(32),
{
    let h = wav_header(channels, sample_rate, data_len);
    assert(h.subrange(20, 22) =~= le16(0xfffe));
    assert(h.subrange(22, 24) =~= le16(channels as int));
    assert(h.subrange(24, 28) =~= le32(sample_rate as int));
    assert(h.subrange(34, 36) =~= le16(32));
    assert(h.subrange(36, 38) =~= le16(22));
    assert(h.subrange(38, 40) =~= le16(32));
}

/// The subformat marker and the data chunk header in bytes 44 to 68.
#[verifier::rlimit(50)]
proof fn lemma_wav_header_data(channels: u16, sample_rate: u32, data_len: int)
    ensures
        wav_header(channels, sample_rate, data_len).subrange(44, 60) == float_format_guid(),
        wav_header(channels, sample_rate, data_len).subrange(60, 64) == seq![
            0x64u8,
            0x61,
            0x74,
            0x61,
        ],
        wav_header(channels, sample_rate, data_len).subrange(64, 68) == le32(data_len),
{
    let h = wav_header(channels, sample_rate, data_len);
    assert(h.subrange(44, 60) =~= float_format_guid());
    assert(h.subrange(60, 64) =~= seq![0x64u8, 0x61, 0x74, 0x61]);
    assert(h.subrange(64, 68) =~= le32(data_len));
}

/// Round trip: reading an encoded container back recovers the channel
/// count, the sample rate, and the exact sample sequence.
#[verifier::rlimit(100)]
pub proof fn lemma_wav_round_trip(samples: Seq<u32>, channels: u16, sample_rate: u32)
    requires
        4 * (channels as int) * (sample_rate as int) <= 0xffff_ffff,
        4 * (samples.len() as int) + 60 <= 0xffff_ffff,
    ensures
        parse_wav(wav_bytes(samples, channels, sample_rate)) == Some(
            (channels, sample_rate, samples),
        ),
{
    let b = wav_bytes(samples, channels, sample_rate);
    let n = samples.len() as int;
    let h = wav_header(channels, sample_rate, 4 * n);
    lemma_sample_bytes_len(samples);
    lemma_wav_header_tags(channels, sample_rate, 4 * n);
    lemma_wav_header_format(channels, sample_rate, 4 * n);
    lemma_wav_header_data(channels, sample_rate, 4 * n);
    assert(b.len() == 68 + 4 * n);
    assert(forall|i: int, j: int|
        0 <= i <= j <= 68 ==> b.subrange(i, j) =~= h.subrange(i, j));
    lemma_le32_round_trip(4 * n + 60);
    lemma_le32_round_trip(40);
    lemma_le16_round_trip(0xfffe);
    lemma_le16_round_trip(channels as int);
    lemma_le32_round_trip(sample_rate as int);
    lemma_le16_round_trip(32);
    lemma_le16_round_trip(22);
    lemma_le32_round_trip(4 * n);
    assert(b.skip(68) =~= sample_bytes(samples));
    lemma_parse_sample_bytes(samples);
}

/// The speaker-position mask, computed.
pub fn compute_channel_mask(channels: u16) -> (r: u32)
    ensures
        r == channel_mask(channels),
{
    if channels >= 18 {
        0x3ffff
    } else {
        let c: u32 = channels as u32;
        assert(c < 18 ==> (1u32 << c) >= 1) by (bit_vector);
        (1u32 << c) - 1
    }
}

/// Appends four literal bytes.
fn push4(out: &mut Vec<u8>, b0: u8, b1: u8, b2: u8, b3: u8)
    ensures
        final(out)@ == old(out)@ + seq![b0, b1, b2, b3],
{
    out.push(b0);
    out.push(b1);
    out.push(b2);
    out.push(b3);
    proof {
        assert(out@ =~= old(out)@ + seq![b0, b1, b2, b3]);
    }
}

/// Appends a 16-bit value, least significant byte first.
fn push_le16(out: &mut Vec<u8>, x: u16)
    ensures
        final(out)@ == old(out)@ + le16(x as int),
{
    out.push((x % 256) as u8);
    out.push(((x / 256) % 256) as u8);
    proof {
        assert(out@ =~= old(out)@ + le16(x as int));
    }
}

/// Appends the low 16 bits of a 32-bit value, least significant byte first.
fn push_le16_lo(out: &mut Vec<u8>, x: u32)
    ensures
        final(out)@ == old(out)@ + le16(x as int),
{
    out.push((x % 256) as u8);
    out.push(((x / 256) % 256) as u8);
    proof {
        assert(out@ =~= old(out)@ + le16(x as int));
    }
}

/// Appends a 32-bit value, least significant byte first.
fn push_le32(out: &mut Vec<u8>, x: u32)
    ensures
        final(out)@ == old(out)@ + le32(x as int),
{
    out.push((x % 256) as u8);
    out.push(((x / 256) % 256) as u8);
    out.push(((x / 65536) % 256) as u8);
    out.push(((x / 16777216) % 256) as u8);
    proof {
        assert(out@ =~= old(out)@ + le32(x as int));
    }
}

/// Serializes the samples into a complete container, byte for byte as
/// `wav_bytes` describes it. The bounds keep the byte-rate field and the
/// two size fields inside their 32-bit slots.
pub fn encode_wav(samples: &Vec<u32>, channels: u16, sample_rate: u32) -> (r: Vec<u8>)
    requires
        4 * (channels as int) * (sample_rate as int) <= 0xffff_ffff,
        4 * (samples@.len() as int) + 60 <= 0xffff_ffff,
    ensures
        r@ == wav_bytes(samples@, channels, sample_rate),
{
    let mut out: Vec<u8> = Vec::new();
    let data_len: u32 = 4 * (samples.len() as u32);
    push4(&mut out, 0x52, 0x49, 0x46, 0x46);
    push_le32(&mut out, data_len + 60);
    push4(&mut out, 0x57, 0x41, 0x56, 0x45);
    push4(&mut out, 0x66, 0x6d, 0x74, 0x20);
    push_le32(&mut out, 40);
    push_le16(&mut out, 0xfffe);
    push_le16(&mut out, channels);
    push_le32(&mut out, sample_rate);
    push_le32(&mut out, 4 * (channels as u32) * sample_rate);
    push_le16_lo(&mut out, 4 * (channels as u32));
    push_le16(&mut out, 32);
    push_le16(&mut out, 22);
    push_le16(&mut out, 32);
    let mask = compute_channel_mask(channels);
    push_le32(&mut out, mask);
    push4(&mut out, 0x03, 0x00, 0x00, 0x00);
    push4(&mut out, 0x00, 0x00, 0x10, 0x00);
    push4(&mut out, 0x80, 0x00, 0x00, 0xaa);
    push4(&mut out, 0x00, 0x38, 0x9b, 0x71);
    push4(&mut out, 0x64, 0x61, 0x74, 0x61);
    push_le32(&mut out, data_len);
    proof {
        assert(out@ =~= wav_header(channels, sample_rate, 4 * (samples@.len() as int)));
    }
    let ghost header = out@;
    let mut i: usize = 0;
    while i < samples.len()
        invariant
            0 <= i <= samples@.len(),
            out@ == header + sample_bytes(samples@.take(i as int)),
            header == wav_header(channels, sample_rate, 4 * (samples@.len() as int)),
        decreases samples@.len() - i,
    {
        push_le32(&mut out, samples[i]);
        proof {
            assert(samples@.take(i as int + 1).drop_last() =~= samples@.take(i as int));
            assert(samples@.take(i as int + 1).last() == samples@[i as int]);
            assert(out@ =~= header + sample_bytes(samples@.take(i as int + 1)));
        }
        i += 1;
    }
    proof {
        assert(samples@.take(samples@.len() as int) =~= samples@);
    }
    out
}

} // verus!
