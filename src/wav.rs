//! Stereo 16-bit PCM WAV images of rendered frames.

use vstd::prelude::*;

verus! {

/// hound's error type, carried through unopened.
#[verifier::external_type_specification]
#[verifier::external_body]
pub struct ExWavError(hound::Error);

/// Frames per second of an exported file.
pub const SAMPLE_RATE: u32 = 44100;

/// Channels of an exported file: left, then right.
pub const CHANNELS: u16 = 2;

/// Why an export produced no file image.
pub enum ExportError {
    /// The sample data does not fit the 32-bit sizes of the RIFF format.
    TooLong,
    /// The encoder refused the data.
    Wav(hound::Error),
}

/// `x` as two little-endian bytes.
pub open spec fn le16(x: nat) -> Seq<u8> {
    seq![(x % 256) as u8, ((x / 256) % 256) as u8]
}

/// `x` as four little-endian bytes.
pub open spec fn le32(x: nat) -> Seq<u8> {
    seq![(x % 256) as u8, ((x / 256) % 256) as u8, ((x / 65536) % 256) as u8, ((x / 16777216) % 256) as u8]
}

/// The 16-bit pattern of a signed sample, in two's complement.
pub open spec fn sample_bits(s: i16) -> nat {
    if s < 0 {
        (s + 65536) as nat
    } else {
        s as nat
    }
}

/// Samples as consecutive little-endian 16-bit words.
pub open spec fn pcm16(samples: Seq<i16>) -> Seq<u8>
    decreases samples.len(),
{
    if samples.len() == 0 {
        Seq::empty()
    } else {
        pcm16(samples.drop_last()) + le16(sample_bits(samples.last()))
    }
}

/// The 44-byte header of a 16-bit integer PCM file whose data chunk holds
/// `data_len` bytes.
pub open spec fn wav_header(channels: nat, sample_rate: nat, data_len: nat) -> Seq<u8> {
    seq![0x52u8, 0x49, 0x46, 0x46] + le32(36 + data_len) + seq![0x57u8, 0x41, 0x56, 0x45]
        + seq![0x66u8, 0x6d, 0x74, 0x20] + le32(16) + le16(1) + le16(channels) + le32(sample_rate)
        + le32(sample_rate * 2 * channels) + le16(2 * channels) + le16(16)
        + seq![0x64u8, 0x61, 0x74, 0x61] + le32(data_len)
}

/// A whole 16-bit integer PCM file holding `samples`.
pub open spec fn wav_file(channels: nat, sample_rate: nat, samples: Seq<i16>) -> Seq<u8> {
    wav_header(channels, sample_rate, 2 * samples.len()) + pcm16(samples)
}

/// Relies on hound's `WavWriter` writing into memory: `new` writes the 44-byte
/// PCM header (at most two channels of 16 bits), `write_sample` appends each
/// sample as a little-endian word, and `finalize` fills in the two sizes. It
/// fails exactly when the samples do not fill whole frames: writes and seeks on
/// an in-memory cursor do not fail, so no I/O error can arise.
#[verifier::external_body]
fn encode_wav(channels: u16, sample_rate: u32, samples: &Vec<i16>) -> (r: Result<Vec<u8>, hound::Error>)
    requires
        1 <= channels <= 2,
        1 <= sample_rate,
        sample_rate * 2 * channels <= u32::MAX,
        2 * samples@.len() + 36 <= u32::MAX,
    ensures
        r matches Ok(bytes) ==> bytes@ == wav_file(channels as nat, sample_rate as nat, samples@),
        samples@.len() % (channels as nat) != 0 ==> r is Err,
        samples@.len() % (channels as nat) == 0 ==> r is Ok,
{
    let spec = hound::WavSpec { channels, sample_rate, bits_per_sample: 16, sample_format: hound::SampleFormat::Int };
    let mut bytes = std::io::Cursor::new(Vec::new());
    let mut writer = hound::WavWriter::new(&mut bytes, spec)?;
    for &s in samples.iter() {
        writer.write_sample(s)?;
    }
    writer.finalize()?;
    Ok(bytes.into_inner())
}

/// Frames laid out channel by channel: left, right, left, right, ...
pub open spec fn interleaved(frames: Seq<(i16, i16)>) -> Seq<i16>
    decreases frames.len(),
{
    if frames.len() == 0 {
        Seq::empty()
    } else {
        interleaved(frames.drop_last()) + seq![frames.last().0, frames.last().1]
    }
}

pub proof fn lemma_interleaved_len(frames: Seq<(i16, i16)>)
    ensures
        interleaved(frames).len() == 2 * frames.len(),
    decreases frames.len(),
{
    if frames.len() > 0 {
        lemma_interleaved_len(frames.drop_last());
    }
}

pub fn interleave(frames: &Vec<(i16, i16)>) -> (r: Vec<i16>)
    ensures
        r@ == interleaved(frames@),
{
    let mut r: Vec<i16> = Vec::new();
    let n = frames.len();
    for i in 0..n
        invariant
            n == frames@.len(),
            r@ == interleaved(frames@.take(i as int)),
    {
        let (left, right) = frames[i];
        proof {
            assert(frames@.take(i + 1).drop_last() =~= frames@.take(i as int));
        }
        r.push(left);
        r.push(right);
        assert(r@ =~= interleaved(frames@.take(i + 1)));
    }
    assert(frames@.take(n as int) =~= frames@);
    r
}

/// The image of a stereo WAV file at 44100 Hz holding `frames`; an export too
/// long for the format's 32-bit sizes is refused.
pub fn stereo_wav(frames: &Vec<(i16, i16)>) -> (r: Result<Vec<u8>, ExportError>)
    ensures
        r matches Err(ExportError::TooLong) <==> 4 * frames@.len() + 36 > u32::MAX,
        4 * frames@.len() + 36 <= u32::MAX ==> r is Ok,
        r matches Ok(bytes) ==> bytes@ == wav_file(CHANNELS as nat, SAMPLE_RATE as nat, interleaved(frames@)),
{
    if frames.len() > (u32::MAX as usize - 36) / 4 {
        return Err(ExportError::TooLong);
    }
    let samples = interleave(frames);
    proof {
        lemma_interleaved_len(frames@);
    }
    match encode_wav(CHANNELS, SAMPLE_RATE, &samples) {
        Ok(bytes) => Ok(bytes),
        Err(e) => Err(ExportError::Wav(e)),
    }
}


pub proof fn lemma_pcm16_len(samples: Seq<i16>)
    ensures
        pcm16(samples).len() == 2 * samples.len(),
    decreases samples.len(),
{
    if samples.len() > 0 {
        lemma_pcm16_len(samples.drop_last());
    }
}

/// The bytes that one stereo frame takes in the data chunk.
pub open spec fn frame_bytes(frame: (i16, i16)) -> Seq<u8> {
    le16(sample_bits(frame.0)) + le16(sample_bits(frame.1))
}

proof fn lemma_pcm16_frames(frames: Seq<(i16, i16)>)
    ensures
        frames.len() > 0 ==> pcm16(interleaved(frames)) == pcm16(interleaved(frames.drop_last()))
            + frame_bytes(frames.last()),
        pcm16(interleaved(frames)).len() == 4 * frames.len(),
{
    lemma_interleaved_len(frames);
    lemma_pcm16_len(interleaved(frames));
    if frames.len() > 0 {
        let a = interleaved(frames.drop_last());
        let f = frames.last();
        let s = interleaved(frames);
        assert(s == a + seq![f.0, f.1]);
        assert(s.drop_last() =~= a.push(f.0));
        assert(s.drop_last().drop_last() =~= a);
        assert(s.last() == f.1);
        assert(s.drop_last().last() == f.0);
        assert(pcm16(s.drop_last()) == pcm16(a) + le16(sample_bits(f.0)));
        assert(pcm16(s) == pcm16(s.drop_last()) + le16(sample_bits(f.1)));
        assert(pcm16(s) =~= pcm16(a) + frame_bytes(f));
    }
}

/// The data chunk of an export holds every frame, left sample then right
/// sample, in frame order and nothing else: the file is a function of the
/// frames alone.
pub proof fn lemma_stereo_wav_frames(frames: Seq<(i16, i16)>, i: int)
    requires
        0 <= i < frames.len(),
    ensures
        wav_file(CHANNELS as nat, SAMPLE_RATE as nat, interleaved(frames)).subrange(44 + 4 * i, 48 + 4 * i)
            == frame_bytes(frames[i]),
    decreases frames.len(),
{
    lemma_interleaved_len(frames);
    lemma_pcm16_frames(frames);
    let header = wav_header(CHANNELS as nat, SAMPLE_RATE as nat, 2 * interleaved(frames).len());
    assert(header.len() == 44);
    let body = pcm16(interleaved(frames));
    let file = wav_file(CHANNELS as nat, SAMPLE_RATE as nat, interleaved(frames));
    assert(file.subrange(44 + 4 * i, 48 + 4 * i) =~= body.subrange(4 * i, 4 * i + 4));
    let rest = frames.drop_last();
    let head = pcm16(interleaved(rest));
    lemma_pcm16_frames(rest);
    if i == frames.len() - 1 {
        assert(body.subrange(4 * i, 4 * i + 4) =~= frame_bytes(frames[i]));
    } else {
        lemma_stereo_wav_frames(rest, i);
        let rest_file = wav_file(CHANNELS as nat, SAMPLE_RATE as nat, interleaved(rest));
        lemma_interleaved_len(rest);
        assert(rest_file.subrange(44 + 4 * i, 48 + 4 * i) =~= head.subrange(4 * i, 4 * i + 4));
        assert(body.subrange(4 * i, 4 * i + 4) =~= head.subrange(4 * i, 4 * i + 4));
    }
}

/// An export of `frames` is a 44-byte header and a data chunk of four bytes
/// per frame, and the header declares that length.
pub proof fn lemma_stereo_wav_size(frames: Seq<(i16, i16)>)
    ensures
        wav_file(CHANNELS as nat, SAMPLE_RATE as nat, interleaved(frames)).len() == 44 + 4 * frames.len(),
        wav_file(CHANNELS as nat, SAMPLE_RATE as nat, interleaved(frames)).subrange(40, 44)
            == le32(4 * frames.len()),
        wav_file(CHANNELS as nat, SAMPLE_RATE as nat, interleaved(frames)).subrange(4, 8)
            == le32(36 + 4 * frames.len()),
{
    lemma_interleaved_len(frames);
    lemma_pcm16_frames(frames);
    let file = wav_file(CHANNELS as nat, SAMPLE_RATE as nat, interleaved(frames));
    assert(file.subrange(40, 44) =~= le32(4 * frames.len()));
    assert(file.subrange(4, 8) =~= le32(36 + 4 * frames.len()));
}

} // verus!
