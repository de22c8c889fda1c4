//! Hearing the bank without playing the game: each sound is written out as a
//! mono 16-bit PCM WAV file, forty-four bytes of header in front of the
//! samples, written by hand rather than by a crate.

use vstd::prelude::*;

verus! {

/// Samples per second of everything the game synthesises.
pub const SAMPLE_RATE: u32 = 44_100;

/// How a spoken syllable starts.
#[derive(Debug, Clone, Copy, PartialEq, Eq, Hash, Structural)]
pub enum Onset {
    /// Straight into the vowel.
    Straight,
    /// A click of silence and then a burst: a /b/, /d/ or /k/.
    Plosive,
    /// A hiss running into the vowel: /f/, /s/, /sh/.
    Fricative,
}

/// A 16-bit word, least significant byte first.
pub open spec fn le16(x: u16) -> Seq<u8> {
    seq![(x % 256) as u8, (x / 256) as u8]
}

/// A 32-bit word, least significant byte first.
pub open spec fn le32(x: u32) -> Seq<u8> {
    seq![
        (x % 256) as u8,
        ((x / 256) % 256) as u8,
        ((x / 65536) % 256) as u8,
        (x / 16777216) as u8,
    ]
}

/// The number two little-endian bytes spell.
pub open spec fn read_le16(b: Seq<u8>) -> int {
    b[0] + 256 * b[1]
}

/// The number four little-endian bytes spell.
pub open spec fn read_le32(b: Seq<u8>) -> int {
    b[0] + 256 * b[1] + 65536 * b[2] + 16777216 * b[3]
}

/// The four ASCII bytes of a chunk tag.
pub open spec fn tag(a: u8, b: u8, c: u8, d: u8) -> Seq<u8> {
    seq![a, b, c, d]
}

/// The samples as two's-complement 16-bit words, little-endian, in order.
pub open spec fn pcm_bytes(samples: Seq<i16>) -> Seq<u8>
    decreases samples.len(),
{
    if samples.len() == 0 {
        Seq::empty()
    } else {
        pcm_bytes(samples.drop_last()) + le16(samples.last() as u16)
    }
}

/// The header of a mono 16-bit file at [`SAMPLE_RATE`] holding `count`
/// samples: `RIFF`, the size of everything after that field, `WAVE`; a
/// sixteen-byte `fmt ` chunk (PCM, one channel, the rate, bytes per second,
/// block alignment, bits per sample); and the `data` chunk's tag and size.
pub open spec fn wav_header(count: nat) -> Seq<u8> {
    let data = (2 * count) as u32;
    tag(82, 73, 70, 70) + le32((36 + 2 * count) as u32) + tag(87, 65, 86, 69) + tag(
        102,
        109,
        116,
        32,
    ) + le32(16) + le16(1) + le16(1) + le32(SAMPLE_RATE) + le32(88_200) + le16(2)
        + le16(16) + tag(100, 97, 116, 97) + le32(data)
}

/// The whole file.
pub open spec fn wav_file(samples: Seq<i16>) -> Seq<u8> {
    wav_header(samples.len()) + pcm_bytes(samples)
}

fn push_le16(out: &mut Vec<u8>, x: u16)
    ensures
        final(out)@ == old(out)@ + le16(x),
{
    out.push((x % 256) as u8);
    out.push((x / 256) as u8);
    assert(final(out)@ =~= old(out)@ + le16(x));
}

fn push_le32(out: &mut Vec<u8>, x: u32)
    ensures
        final(out)@ == old(out)@ + le32(x),
{
    out.push((x % 256) as u8);
    out.push(((x / 256) % 256) as u8);
    out.push(((x / 65536) % 256) as u8);
    out.push((x / 16777216) as u8);
    assert(final(out)@ =~= old(out)@ + le32(x));
}

fn push_tag(out: &mut Vec<u8>, a: u8, b: u8, c: u8, d: u8)
    ensures
        final(out)@ == old(out)@ + tag(a, b, c, d),
{
    out.push(a);
    out.push(b);
    out.push(c);
    out.push(d);
    assert(final(out)@ =~= old(out)@ + tag(a, b, c, d));
}

/// One mono 16-bit PCM WAV file holding `samples`, already scaled to the
/// 16-bit range.
pub fn wav(samples: &[i16]) -> (file: Vec<u8>)
    requires
        36 + 2 * samples@.len() <= u32::MAX,
    ensures
        file@ == wav_file(samples@),
{
    let count = samples.len();
    let data_len: u32 = (count as u32) * 2;
    let mut out: Vec<u8> = Vec::new();
    push_tag(&mut out, 82, 73, 70, 70);
    push_le32(&mut out, 36 + data_len);
    push_tag(&mut out, 87, 65, 86, 69);
    push_tag(&mut out, 102, 109, 116, 32);
    push_le32(&mut out, 16);
    push_le16(&mut out, 1);
    push_le16(&mut out, 1);
    push_le32(&mut out, SAMPLE_RATE);
    push_le32(&mut out, SAMPLE_RATE * 2);
    push_le16(&mut out, 2);
    push_le16(&mut out, 16);
    push_tag(&mut out, 100, 97, 116, 97);
    push_le32(&mut out, data_len);
    let ghost header = out@;
    assert(header =~= wav_header(count as nat));
    let mut i: usize = 0;
    while i < count
        invariant
            count == samples@.len(),
            i <= count,
            header == wav_header(count as nat),
            out@ == header + pcm_bytes(samples@.subrange(0, i as int)),
        decreases count - i,
    {
        let s = samples[i];
        push_le16(&mut out, s as u16);
        proof {
            let before = samples@.subrange(0, i as int);
            let after = samples@.subrange(0, i + 1);
            assert(after.drop_last() =~= before);
            assert(after.last() == s);
            assert(pcm_bytes(after) == pcm_bytes(before) + le16(s as u16));
            assert(out@ =~= header + pcm_bytes(after));
        }
        i = i + 1;
    }
    assert(samples@.subrange(0, count as int) =~= samples@);
    out
}

proof fn lemma_pcm_length(samples: Seq<i16>)
    ensures
        pcm_bytes(samples).len() == 2 * samples.len(),
    decreases samples.len(),
{
    if samples.len() > 0 {
        lemma_pcm_length(samples.drop_last());
    }
}

proof fn lemma_le32_reads_back(x: u32)
    ensures
        read_le32(le32(x)) == x,
{
    let b = le32(x);
    assert(b[0] == x % 256);
    assert(b[1] == (x / 256) % 256);
    assert(b[2] == (x / 65536) % 256);
    assert(b[3] == x / 16777216) by {
        assert(x / 16777216 < 256);
    }
    assert(x == x % 256 + 256 * ((x / 256) % 256) + 65536 * ((x / 65536) % 256) + 16777216 * (x
        / 16777216)) by (nonlinear_arith);
}

/// The header describes the samples behind it: the file is forty-four bytes
/// longer than the samples, the tags stand where a reader looks for them,
/// the RIFF size counts everything after itself and the data size counts only
/// the samples, two bytes each, which follow the header in order.
pub proof fn lemma_wav_header_describes_the_samples(samples: Seq<i16>)
    requires
        36 + 2 * samples.len() <= u32::MAX,
    ensures
        wav_file(samples).len() == 44 + 2 * samples.len(),
        wav_file(samples).subrange(0, 4) == tag(82, 73, 70, 70),
        wav_file(samples).subrange(8, 12) == tag(87, 65, 86, 69),
        wav_file(samples).subrange(36, 40) == tag(100, 97, 116, 97),
        read_le32(wav_file(samples).subrange(4, 8)) == wav_file(samples).len() - 8,
        read_le32(wav_file(samples).subrange(40, 44)) == 2 * samples.len(),
        forall|i: int|
            0 <= i < samples.len() ==> wav_file(samples).subrange(44 + 2 * i, 46 + 2 * i) == le16(
                #[trigger] samples[i] as u16,
            ),
{
    let n = samples.len();
    let f = wav_file(samples);
    let h = wav_header(n);
    lemma_pcm_length(samples);
    assert(h.len() == 44);
    assert(f.subrange(0, 4) =~= tag(82, 73, 70, 70));
    assert(f.subrange(8, 12) =~= tag(87, 65, 86, 69));
    assert(f.subrange(36, 40) =~= tag(100, 97, 116, 97));
    assert(f.subrange(4, 8) =~= le32((36 + 2 * n) as u32));
    assert(f.subrange(40, 44) =~= le32((2 * n) as u32));
    lemma_le32_reads_back((36 + 2 * n) as u32);
    lemma_le32_reads_back((2 * n) as u32);
    assert forall|i: int| 0 <= i < samples.len() implies f.subrange(44 + 2 * i, 46 + 2 * i) == le16(
        #[trigger] samples[i] as u16,
    ) by {
        lemma_pcm_sample_at(samples, i);
        assert(f.subrange(44 + 2 * i, 46 + 2 * i) =~= pcm_bytes(samples).subrange(2 * i, 2 * i + 2));
    }
}

proof fn lemma_pcm_sample_at(samples: Seq<i16>, i: int)
    requires
        0 <= i < samples.len(),
    ensures
        pcm_bytes(samples).len() == 2 * samples.len(),
        pcm_bytes(samples).subrange(2 * i, 2 * i + 2) == le16(samples[i] as u16),
    decreases samples.len(),
{
    lemma_pcm_length(samples);
    let front = samples.drop_last();
    lemma_pcm_length(front);
    if i == samples.len() - 1 {
        assert(pcm_bytes(samples).subrange(2 * i, 2 * i + 2) =~= le16(samples[i] as u16));
    } else {
        lemma_pcm_sample_at(front, i);
        assert(pcm_bytes(samples).subrange(2 * i, 2 * i + 2) =~= pcm_bytes(front).subrange(
            2 * i,
            2 * i + 2,
        ));
    }
}

proof fn lemma_le16_reads_back(x: u16)
    ensures
        read_le16(le16(x)) == x,
{
}

/// The `fmt ` chunk declares what the samples are: a sixteen-byte chunk
/// saying integer PCM (format 1), one channel, [`SAMPLE_RATE`] frames a
/// second, sixteen bits a sample, two bytes a frame and so twice the rate in
/// bytes a second.
pub proof fn lemma_wav_declares_16_bit_mono_pcm(samples: Seq<i16>)
    requires
        36 + 2 * samples.len() <= u32::MAX,
    ensures
        wav_file(samples).subrange(12, 16) == tag(102, 109, 116, 32),
        read_le32(wav_file(samples).subrange(16, 20)) == 16,
        read_le16(wav_file(samples).subrange(20, 22)) == 1,
        read_le16(wav_file(samples).subrange(22, 24)) == 1,
        read_le32(wav_file(samples).subrange(24, 28)) == 44_100,
        read_le16(wav_file(samples).subrange(34, 36)) == 16,
        read_le16(wav_file(samples).subrange(32, 34)) == read_le16(wav_file(samples).subrange(22, 24))
            * read_le16(wav_file(samples).subrange(34, 36)) / 8,
        read_le32(wav_file(samples).subrange(28, 32)) == read_le32(wav_file(samples).subrange(24, 28))
            * read_le16(wav_file(samples).subrange(32, 34)),
{
    let f = wav_file(samples);
    let h = wav_header(samples.len());
    assert(h.len() == 44);
    assert forall|a: int, b: int| 0 <= a <= b <= 44 implies #[trigger] f.subrange(a, b) == h.subrange(a, b) by {
        assert(f.subrange(a, b) =~= h.subrange(a, b));
    }
    assert(f.subrange(12, 16) =~= tag(102, 109, 116, 32));
    assert(f.subrange(16, 20) =~= le32(16));
    assert(f.subrange(20, 22) =~= le16(1));
    assert(f.subrange(22, 24) =~= le16(1));
    assert(f.subrange(24, 28) =~= le32(SAMPLE_RATE));
    assert(f.subrange(28, 32) =~= le32(88_200));
    assert(f.subrange(32, 34) =~= le16(2));
    assert(f.subrange(34, 36) =~= le16(16));
    lemma_le32_reads_back(16);
    lemma_le32_reads_back(SAMPLE_RATE);
    lemma_le32_reads_back(88_200);
    lemma_le16_reads_back(1);
    lemma_le16_reads_back(2);
    lemma_le16_reads_back(16);
}

} // verus!
