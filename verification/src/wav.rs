//! The waveform container: a byte-exact model of the mono / 16 kHz / 16-bit
//! integer PCM file that the pipeline produces, a verified encoder for it,
//! and a checking decoder used to validate containers.
//!
//! The container is a classic RIFF/WAVE file: a fixed 44-byte header (RIFF
//! chunk, PCM `fmt ` chunk, `data` chunk header) followed by the samples as
//! 16-bit little-endian words. The header's size fields are 32-bit, which
//! bounds the number of samples a container can carry.

use vstd::prelude::*;

verus! {

/// Number of bytes in the fixed header that precedes the sample payload.
pub const HEADER_LEN: usize = 44;

/// Sample rate that the header reports, in hertz.
pub const SAMPLE_RATE_HZ: u32 = 16000;

/// Channel count that the header reports.
pub const CHANNEL_COUNT: u16 = 1;

/// Bit depth that the header reports.
pub const BITS_PER_SAMPLE: u16 = 16;

/// Format tag for integer PCM in a WAVE `fmt ` chunk.
pub const FORMAT_TAG_PCM: u16 = 1;

/// Bytes per second of audio: rate times channels times bytes per sample.
pub const BYTE_RATE: u32 = 32000;

/// Bytes per frame: channels times bytes per sample.
pub const BLOCK_ALIGN: u16 = 2;

/// Largest sample count whose container still fits the header's 32-bit size
/// fields: the RIFF size field holds 36 + 2 * count.
pub const MAX_SAMPLES: u64 = 2147483629;

/// The two bytes of `x`, least significant first.
pub open spec fn le16_bytes(x: u16) -> Seq<u8> {
    seq![(x % 256) as u8, (x / 256) as u8]
}

/// The four bytes of `x`, least significant first.
pub open spec fn le32_bytes(x: u32) -> Seq<u8> {
    seq![
        (x % 256) as u8,
        ((x / 256) % 256) as u8,
        ((x / 65536) % 256) as u8,
        (x / 16777216) as u8,
    ]
}

/// The 16-bit word with bytes `lo`, `hi`, least significant first.
pub open spec fn u16_of_le(lo: u8, hi: u8) -> u16 {
    (lo as u16 + 256 * (hi as u16)) as u16
}

/// Reading the two bytes of a word back gives the word.
pub proof fn lemma_le16_of_word(x: u16)
    ensures
        u16_of_le(le16_bytes(x)[0], le16_bytes(x)[1]) == x,
{
}

/// Writing a word assembled from two bytes gives those bytes back.
pub proof fn lemma_word_of_le16(lo: u8, hi: u8)
    ensures
        le16_bytes(u16_of_le(lo, hi)) == seq![lo, hi],
{
    let x = u16_of_le(lo, hi);
    assert(x == lo as u16 + 256 * (hi as u16));
    assert((lo as u16 + 256 * (hi as u16)) % 256 == lo as u16 && (lo as u16 + 256 * (hi as u16))
        / 256 == hi as u16) by (nonlinear_arith);
    assert(le16_bytes(x) =~= seq![lo, hi]);
}

/// The 44 header bytes of a container holding `n` samples.
pub open spec fn header_bytes(n: nat) -> Seq<u8>
    recommends
        n <= MAX_SAMPLES,
{
    seq![0x52u8, 0x49u8, 0x46u8, 0x46u8]  // "RIFF"
    + le32_bytes((36 + 2 * n) as u32) + seq![0x57u8, 0x41u8, 0x56u8, 0x45u8]  // "WAVE"
    + seq![0x66u8, 0x6du8, 0x74u8, 0x20u8]  // "fmt "
    + le32_bytes(16u32)  // fmt chunk size
    + le16_bytes(FORMAT_TAG_PCM) + le16_bytes(CHANNEL_COUNT) + le32_bytes(SAMPLE_RATE_HZ)
        + le32_bytes(BYTE_RATE) + le16_bytes(BLOCK_ALIGN) + le16_bytes(BITS_PER_SAMPLE) + seq![
        0x64u8,
        0x61u8,
        0x74u8,
        0x61u8,
    ]  // "data"
    + le32_bytes((2 * n) as u32)
}

/// The payload: each sample as a 16-bit little-endian word.
pub open spec fn sample_bytes(samples: Seq<i16>) -> Seq<u8> {
    Seq::new(
        2 * samples.len(),
        |i: int|
            if i % 2 == 0 {
                le16_bytes(samples[i / 2] as u16)[0]
            } else {
                le16_bytes(samples[i / 2] as u16)[1]
            },
    )
}

/// The whole container: header then payload.
pub open spec fn wav_bytes(samples: Seq<i16>) -> Seq<u8>
    recommends
        samples.len() <= MAX_SAMPLES,
{
    header_bytes(samples.len()) + sample_bytes(samples)
}

/// The header is always 44 bytes long, whatever the sample count.
pub proof fn lemma_header_bytes_len(n: nat)
    ensures
        header_bytes(n).len() == HEADER_LEN,
{
}

/// Length invariant: a container holds 44 header bytes plus two payload
/// bytes per sample, for every sample sequence including the empty one.
pub proof fn lemma_wav_bytes_len(samples: Seq<i16>)
    ensures
        wav_bytes(samples).len() == HEADER_LEN + 2 * samples.len(),
{
}

/// Failure of the encoder.
#[derive(Clone, Copy, Debug, PartialEq, Eq, Structural)]
pub enum EncodeError {
    /// The payload would overflow the header's 32-bit size fields.
    TooManySamples,
}

/// Appends the two little-endian bytes of `x`.
fn push_u16_le(out: &mut Vec<u8>, x: u16)
    ensures
        final(out)@ == old(out)@ + le16_bytes(x),
{
    out.push((x % 256) as u8);
    out.push((x / 256) as u8);
    proof {
        assert(out@ =~= old(out)@ + le16_bytes(x));
    }
}

/// Appends the four little-endian bytes of `x`.
fn push_u32_le(out: &mut Vec<u8>, x: u32)
    ensures
        final(out)@ == old(out)@ + le32_bytes(x),
{
    out.push((x % 256) as u8);
    out.push(((x / 256) % 256) as u8);
    out.push(((x / 65536) % 256) as u8);
    out.push((x / 16777216) as u8);
    proof {
        assert(out@ =~= old(out)@ + le32_bytes(x));
    }
}

/// The 44 header bytes for a container of `n` samples.
fn header_vec(n: usize) -> (h: Vec<u8>)
    requires
        n <= MAX_SAMPLES,
    ensures
        h@ == header_bytes(n as nat),
        h@.len() == HEADER_LEN,
{
    let data_size: u32 = 2 * (n as u32);
    let riff_size: u32 = 36 + data_size;
    let mut h: Vec<u8> = Vec::new();
    h.push(0x52u8);
    h.push(0x49u8);
    h.push(0x46u8);
    h.push(0x46u8);
    push_u32_le(&mut h, riff_size);
    h.push(0x57u8);
    h.push(0x41u8);
    h.push(0x56u8);
    h.push(0x45u8);
    h.push(0x66u8);
    h.push(0x6du8);
    h.push(0x74u8);
    h.push(0x20u8);
    push_u32_le(&mut h, 16u32);
    push_u16_le(&mut h, FORMAT_TAG_PCM);
    push_u16_le(&mut h, CHANNEL_COUNT);
    push_u32_le(&mut h, SAMPLE_RATE_HZ);
    push_u32_le(&mut h, BYTE_RATE);
    push_u16_le(&mut h, BLOCK_ALIGN);
    push_u16_le(&mut h, BITS_PER_SAMPLE);
    h.push(0x64u8);
    h.push(0x61u8);
    h.push(0x74u8);
    h.push(0x61u8);
    push_u32_le(&mut h, data_size);
    proof {
        assert(h@ =~= header_bytes(n as nat));
    }
    h
}

/// Appending one sample extends the payload by its two bytes.
proof fn lemma_sample_bytes_push(s: Seq<i16>, x: i16)
    ensures
        sample_bytes(s.push(x)) == sample_bytes(s) + le16_bytes(x as u16),
{
    assert forall|i: int| 0 <= i < 2 * s.len() + 2 implies sample_bytes(s.push(x))[i] == (
    sample_bytes(s) + le16_bytes(x as u16))[i] by {
        if i < 2 * s.len() {
            assert(0 <= i / 2 < s.len());
            assert(s.push(x)[i / 2] == s[i / 2]);
        } else {
            assert(i / 2 == s.len());
            assert(s.push(x)[i / 2] == x);
        }
    }
    assert(sample_bytes(s.push(x)) =~= sample_bytes(s) + le16_bytes(x as u16));
}

/// Encodes a sample buffer into the fixed-format container.
///
/// Succeeds exactly when the payload fits the container's 32-bit size
/// fields, and then produces precisely the bytes of `wav_bytes`: the output
/// is a pure function of the input samples, so repeated calls on equal
/// buffers are byte-identical.
pub fn encode(samples: &Vec<i16>) -> (r: Result<Vec<u8>, EncodeError>)
    ensures
        r is Ok <==> samples@.len() <= MAX_SAMPLES,
        r matches Ok(out) ==> out@ == wav_bytes(samples@),
        r matches Ok(out) ==> out@.len() == HEADER_LEN + 2 * samples@.len(),
        r matches Err(e) ==> e is TooManySamples,
{
    let n: usize = samples.len();
    if n as u64 > MAX_SAMPLES {
        return Err(EncodeError::TooManySamples);
    }
    let mut out: Vec<u8> = header_vec(n);
    let mut i: usize = 0;
    while i < n
        invariant
            i <= n,
            n == samples@.len(),
            n <= MAX_SAMPLES,
            out@ == header_bytes(n as nat) + sample_bytes(samples@.subrange(0, i as int)),
        decreases n - i,
    {
        let s: i16 = samples[i];
        push_u16_le(&mut out, s as u16);
        proof {
            lemma_sample_bytes_push(samples@.subrange(0, i as int), samples@[i as int]);
            assert(samples@.subrange(0, i + 1) =~= samples@.subrange(0, i as int).push(
                samples@[i as int],
            ));
        }
        i += 1;
    }
    proof {
        assert(samples@.subrange(0, n as int) =~= samples@);
        lemma_wav_bytes_len(samples@);
    }
    Ok(out)
}

/// Determinism: `encode`'s contract makes its output a function of the
/// sample sequence alone, so two containers produced from equal sample
/// sequences are byte-identical.
pub proof fn lemma_encode_deterministic(samples: Seq<i16>, b1: Seq<u8>, b2: Seq<u8>)
    requires
        b1 == wav_bytes(samples),
        b2 == wav_bytes(samples),
    ensures
        b1 == b2,
{
}

/// Casting a sample to its 16-bit word and back is the identity.
proof fn lemma_i16_word_round_trip(x: i16)
    ensures
        (x as u16) as i16 == x,
{
    assert((x as u16) as i16 == x) by (bit_vector);
}

/// Casting a 16-bit word to a sample and back is the identity.
proof fn lemma_u16_word_round_trip(x: u16)
    ensures
        (x as i16) as u16 == x,
{
    assert((x as i16) as u16 == x) by (bit_vector);
}

/// How many samples a container of `b.len()` bytes holds.
pub open spec fn wav_sample_count(b: Seq<u8>) -> nat
    recommends
        b.len() >= HEADER_LEN,
{
    ((b.len() - HEADER_LEN) / 2) as nat
}

/// The samples read back from a container's payload.
pub open spec fn wav_samples(b: Seq<u8>) -> Seq<i16>
    recommends
        b.len() >= HEADER_LEN,
{
    Seq::new(wav_sample_count(b), |i: int| u16_of_le(b[44 + 2 * i], b[45 + 2 * i]) as i16)
}

/// Whether `b` is exactly a container that `encode` can produce.
pub open spec fn is_wav_encoding(b: Seq<u8>) -> bool {
    &&& b.len() >= HEADER_LEN
    &&& (b.len() - HEADER_LEN) % 2 == 0
    &&& wav_sample_count(b) <= MAX_SAMPLES
    &&& b == wav_bytes(wav_samples(b))
}

/// Header invariant: whatever the samples, the container's header reports
/// integer PCM, one channel, 16000 Hz and 16 bits per sample.
pub proof fn lemma_header_reports_format(samples: Seq<i16>)
    requires
        samples.len() <= MAX_SAMPLES,
    ensures
        wav_bytes(samples).subrange(20, 22) == le16_bytes(FORMAT_TAG_PCM),
        wav_bytes(samples).subrange(22, 24) == le16_bytes(CHANNEL_COUNT),
        wav_bytes(samples).subrange(24, 28) == le32_bytes(SAMPLE_RATE_HZ),
        wav_bytes(samples).subrange(34, 36) == le16_bytes(BITS_PER_SAMPLE),
{
    assert(wav_bytes(samples).subrange(20, 22) =~= le16_bytes(FORMAT_TAG_PCM));
    assert(wav_bytes(samples).subrange(22, 24) =~= le16_bytes(CHANNEL_COUNT));
    assert(wav_bytes(samples).subrange(24, 28) =~= le32_bytes(SAMPLE_RATE_HZ));
    assert(wav_bytes(samples).subrange(34, 36) =~= le16_bytes(BITS_PER_SAMPLE));
}

/// Round trip: a container built from `samples` is a valid encoding, and
/// reading its payload back yields `samples` again.
pub proof fn lemma_wav_round_trip(samples: Seq<i16>)
    requires
        samples.len() <= MAX_SAMPLES,
    ensures
        is_wav_encoding(wav_bytes(samples)),
        wav_samples(wav_bytes(samples)) == samples,
{
    lemma_wav_bytes_len(samples);
    let b = wav_bytes(samples);
    assert(wav_sample_count(b) == samples.len());
    assert forall|i: int| 0 <= i < samples.len() implies wav_samples(b)[i] == samples[i] by {
        let word = le16_bytes(samples[i] as u16);
        assert(b[44 + 2 * i] == sample_bytes(samples)[2 * i]);
        assert(b[45 + 2 * i] == sample_bytes(samples)[2 * i + 1]);
        assert((2 * i) / 2 == i && (2 * i + 1) / 2 == i);
        lemma_le16_of_word(samples[i] as u16);
        lemma_i16_word_round_trip(samples[i]);
    }
    assert(wav_samples(b) =~= samples);
}

/// Failure of the checking decoder, with the condition it reports.
#[derive(Clone, Copy, Debug, PartialEq, Eq, Structural)]
pub enum DecodeError {
    /// Shorter than the fixed header.
    Truncated,
    /// An odd number of payload bytes: not a whole number of samples.
    OddPayload,
    /// More payload than the header's size fields can describe.
    TooManySamples,
    /// The first 44 bytes are not the fixed header for this length.
    HeaderMismatch,
}

/// Decodes and validates a container.
///
/// Succeeds exactly on the byte sequences that `encode` produces, and then
/// returns the samples the container carries.
pub fn decode(bytes: &Vec<u8>) -> (r: Result<Vec<i16>, DecodeError>)
    ensures
        r is Ok <==> is_wav_encoding(bytes@),
        r matches Ok(samples) ==> samples@ == wav_samples(bytes@) && bytes@ == wav_bytes(samples@),
        r matches Err(e) ==> match e {
            DecodeError::Truncated => bytes@.len() < HEADER_LEN,
            DecodeError::OddPayload => bytes@.len() >= HEADER_LEN && (bytes@.len() - HEADER_LEN) % 2
                != 0,
            DecodeError::TooManySamples => bytes@.len() >= HEADER_LEN && (bytes@.len()
                - HEADER_LEN) % 2 == 0 && wav_sample_count(bytes@) > MAX_SAMPLES,
            DecodeError::HeaderMismatch => bytes@.len() >= HEADER_LEN && (bytes@.len()
                - HEADER_LEN) % 2 == 0 && wav_sample_count(bytes@) <= MAX_SAMPLES
                && bytes@.subrange(0, HEADER_LEN as int) != header_bytes(wav_sample_count(bytes@)),
        },
{
    let len: usize = bytes.len();
    if len < HEADER_LEN {
        return Err(DecodeError::Truncated);
    }
    let payload: usize = len - HEADER_LEN;
    if payload % 2 != 0 {
        return Err(DecodeError::OddPayload);
    }
    let n: usize = payload / 2;
    if n as u64 > MAX_SAMPLES {
        return Err(DecodeError::TooManySamples);
    }
    proof {
        lemma_header_bytes_len(n as nat);
        assert(wav_sample_count(bytes@) == n);
    }
    let expected: Vec<u8> = header_vec(n);
    let mut k: usize = 0;
    while k < HEADER_LEN
        invariant
            k <= HEADER_LEN,
            len == bytes@.len(),
            len == HEADER_LEN + 2 * n,
            n <= MAX_SAMPLES,
            expected@ == header_bytes(n as nat),
            expected@.len() == HEADER_LEN,
            forall|j: int| 0 <= j < k ==> bytes@[j] == header_bytes(n as nat)[j],
        decreases HEADER_LEN - k,
    {
        if bytes[k] != expected[k] {
            proof {
                assert(bytes@.subrange(0, HEADER_LEN as int)[k as int] != header_bytes(
                    n as nat,
                )[k as int]);
                if is_wav_encoding(bytes@) {
                    assert(wav_samples(bytes@).len() == n);
                    assert(bytes@ == header_bytes(n as nat) + sample_bytes(wav_samples(bytes@)));
                    assert(bytes@[k as int] == header_bytes(n as nat)[k as int]);
                }
            }
            return Err(DecodeError::HeaderMismatch);
        }
        k += 1;
    }
    let mut out: Vec<i16> = Vec::new();
    let mut i: usize = 0;
    while i < n
        invariant
            i <= n,
            len == bytes@.len(),
            len == HEADER_LEN + 2 * n,
            n <= MAX_SAMPLES,
            wav_sample_count(bytes@) == n,
            out@ == wav_samples(bytes@).subrange(0, i as int),
        decreases n - i,
    {
        let lo: u8 = bytes[HEADER_LEN + 2 * i];
        let hi: u8 = bytes[HEADER_LEN + 2 * i + 1];
        let word: u16 = lo as u16 + 256 * (hi as u16);
        proof {
            assert(word == u16_of_le(bytes@[44 + 2 * (i as int)], bytes@[45 + 2 * (i as int)]));
            assert(wav_samples(bytes@)[i as int] == word as i16);
            assert(wav_samples(bytes@).subrange(0, i + 1) =~= wav_samples(bytes@).subrange(
                0,
                i as int,
            ).push(word as i16));
        }
        out.push(word as i16);
        i += 1;
    }
    proof {
        assert(out@ =~= wav_samples(bytes@));
        lemma_wav_bytes_len(out@);
        assert forall|j: int| HEADER_LEN <= j < len implies bytes@[j] == sample_bytes(out@)[j
            - 44] by {
            let m = j - 44;
            let s = m / 2;
            assert(m == 2 * s + m % 2);
            assert(0 <= s < n);
            assert(out@[s] == u16_of_le(bytes@[44 + 2 * s], bytes@[45 + 2 * s]) as i16);
            lemma_u16_word_round_trip(u16_of_le(bytes@[44 + 2 * s], bytes@[45 + 2 * s]));
            lemma_word_of_le16(bytes@[44 + 2 * s], bytes@[45 + 2 * s]);
            if m % 2 == 0 {
                assert(sample_bytes(out@)[m] == le16_bytes(out@[s] as u16)[0]);
                assert(j == 44 + 2 * s);
            } else {
                assert(sample_bytes(out@)[m] == le16_bytes(out@[s] as u16)[1]);
                assert(j == 45 + 2 * s);
            }
        }
        assert(bytes@ =~= wav_bytes(out@));
    }
    Ok(out)
}

} // verus!
