//! The WAV/PCM container: accumulates 16-bit signed samples and finalizes
//! them, exactly once, into a standard RIFF/WAVE byte image whose header
//! carries the device's negotiated sample rate and channel count.

use vstd::prelude::*;

verus! {

use vstd::arithmetic::div_mod::{
    lemma_div_denominator, lemma_fundamental_div_mod, lemma_fundamental_div_mod_converse,
};

/// The largest sample count whose data chunk and RIFF size still fit the
/// 32-bit header fields: `36 + 2 * n <= u32::MAX`.
pub const MAX_WAV_SAMPLES: usize = 2147483629;

/// Little-endian bytes of a 16-bit value.
pub open spec fn u16_le(v: u16) -> Seq<u8> {
    seq![(v % 256) as u8, (v / 256) as u8]
}

/// Little-endian bytes of a 32-bit value.
pub open spec fn u32_le(v: u32) -> Seq<u8> {
    seq![
        (v % 256) as u8,
        ((v / 256) % 256) as u8,
        ((v / 65536) % 256) as u8,
        ((v / 16777216) % 256) as u8,
    ]
}

/// The unsigned 16-bit pattern of a two's-complement sample.
pub open spec fn i16_pattern(v: i16) -> u16 {
    if v >= 0 {
        v as u16
    } else {
        (v + 0x10000) as u16
    }
}

/// Little-endian bytes of one sample.
pub open spec fn i16_le(v: i16) -> Seq<u8> {
    u16_le(i16_pattern(v))
}

/// Little-endian bytes of a whole sample sequence.
pub open spec fn samples_bytes(s: Seq<i16>) -> Seq<u8>
    decreases s.len(),
{
    if s.len() == 0 {
        Seq::empty()
    } else {
        i16_le(s[0]) + samples_bytes(s.drop_first())
    }
}

pub proof fn lemma_samples_bytes_push(s: Seq<i16>, x: i16)
    ensures
        samples_bytes(s.push(x)) == samples_bytes(s) + i16_le(x),
    decreases s.len(),
{
    if s.len() == 0 {
        assert(s.push(x).drop_first().len() == 0);
        assert(samples_bytes(s.push(x).drop_first()) =~= Seq::<u8>::empty());
        assert(s.push(x)[0] == x);
        assert(samples_bytes(s) =~= Seq::<u8>::empty());
        assert(samples_bytes(s.push(x)) =~= samples_bytes(s) + i16_le(x));
    } else {
        assert(s.push(x).drop_first() =~= s.drop_first().push(x));
        lemma_samples_bytes_push(s.drop_first(), x);
        assert(samples_bytes(s.push(x)) =~= samples_bytes(s) + i16_le(x));
    }
}

pub proof fn lemma_samples_bytes_len(s: Seq<i16>)
    ensures
        samples_bytes(s).len() == 2 * s.len(),
    decreases s.len(),
{
    if s.len() != 0 {
        lemma_samples_bytes_len(s.drop_first());
    }
}

/// The 44-byte canonical PCM header for `n` 16-bit samples: RIFF tag and
/// size, WAVE tag, `fmt ` chunk (PCM, channel count, sample rate, byte rate,
/// block alignment, 16 bits per sample), `data` tag and size.
pub open spec fn spec_wav_header(sample_rate: u32, channels: u16, n: int) -> Seq<u8> {
    seq![0x52u8, 0x49u8, 0x46u8, 0x46u8]  // "RIFF"
     + u32_le((36 + 2 * n) as u32) + seq![0x57u8, 0x41u8, 0x56u8, 0x45u8]  // "WAVE"
     + seq![0x66u8, 0x6du8, 0x74u8, 0x20u8]  // "fmt "
     + u32_le(16) + u16_le(1)  // PCM
     + u16_le(channels) + u32_le(sample_rate) + u32_le(
        (sample_rate * channels * 2) as u32,
    )  // byte rate
     + u16_le((channels * 2) as u16)  // block align
     + u16_le(16)  // bits per sample
     + seq![0x64u8, 0x61u8, 0x74u8, 0x61u8]  // "data"
     + u32_le((2 * n) as u32)
}

/// The complete byte image of a finalized recording.
pub open spec fn spec_wav_bytes(sample_rate: u32, channels: u16, samples: Seq<i16>) -> Seq<u8> {
    spec_wav_header(sample_rate, channels, samples.len() as int) + samples_bytes(samples)
}

/// The unsigned value of the four little-endian bytes at `i`.
pub open spec fn le_u32_at(b: Seq<u8>, i: int) -> int {
    b[i] + 256 * b[i + 1] + 65536 * b[i + 2] + 16777216 * b[i + 3]
}

/// Structural well-formedness of a WAV byte image: the two tags, and the two
/// size fields consistent with the total length.
pub open spec fn wav_well_formed(b: Seq<u8>) -> bool {
    &&& b.len() >= 44
    &&& b.subrange(0, 4) == seq![0x52u8, 0x49u8, 0x46u8, 0x46u8]
    &&& b.subrange(8, 12) == seq![0x57u8, 0x41u8, 0x56u8, 0x45u8]
    &&& le_u32_at(b, 4) == b.len() - 8
    &&& le_u32_at(b, 40) == b.len() - 44
}

/// Recomposing the four little-endian bytes of a 32-bit value gives the value
/// back.
pub proof fn lemma_u32_le_decode(v: u32)
    ensures
        u32_le(v)[0] + 256 * u32_le(v)[1] + 65536 * u32_le(v)[2] + 16777216 * u32_le(v)[3]
            == v as int,
{
    let x = v as int;
    lemma_fundamental_div_mod(x, 256);
    lemma_fundamental_div_mod(x / 256, 256);
    lemma_fundamental_div_mod(x / 65536, 256);
    lemma_div_denominator(x, 256, 256);
    lemma_div_denominator(x, 65536, 256);
    assert(x / 16777216 < 256) by {
        assert(x < 4294967296);
    }
    assert((x / 16777216) % 256 == x / 16777216) by {
        lemma_fundamental_div_mod_converse(x / 16777216, 256, 0, x / 16777216);
    }
}

/// The encoder's output is a well-formed WAV image.
pub proof fn lemma_wav_bytes_well_formed(sample_rate: u32, channels: u16, samples: Seq<i16>)
    requires
        samples.len() <= MAX_WAV_SAMPLES,
    ensures
        wav_well_formed(spec_wav_bytes(sample_rate, channels, samples)),
        spec_wav_bytes(sample_rate, channels, samples).len() == 44 + 2 * samples.len(),
{
    let n = samples.len() as int;
    let b = spec_wav_bytes(sample_rate, channels, samples);
    lemma_samples_bytes_len(samples);
    assert(b.len() == 44 + 2 * n);
    assert(b.subrange(0, 4) =~= seq![0x52u8, 0x49u8, 0x46u8, 0x46u8]);
    assert(b.subrange(8, 12) =~= seq![0x57u8, 0x41u8, 0x56u8, 0x45u8]);
    lemma_u32_le_decode((36 + 2 * n) as u32);
    assert(b[4] == u32_le((36 + 2 * n) as u32)[0]);
    assert(b[5] == u32_le((36 + 2 * n) as u32)[1]);
    assert(b[6] == u32_le((36 + 2 * n) as u32)[2]);
    assert(b[7] == u32_le((36 + 2 * n) as u32)[3]);
    lemma_u32_le_decode((2 * n) as u32);
    assert(b[40] == u32_le((2 * n) as u32)[0]);
    assert(b[41] == u32_le((2 * n) as u32)[1]);
    assert(b[42] == u32_le((2 * n) as u32)[2]);
    assert(b[43] == u32_le((2 * n) as u32)[3]);
}

/// An in-memory WAV sink: samples accumulate, and `finalize` consumes the
/// sink, so a finalized sink can never be written again.
pub struct WavSink {
    pub sample_rate: u32,
    pub channels: u16,
    pub samples: Vec<i16>,
}

impl WavSink {
    /// Header fields in range: at least one channel, block alignment fits
    /// 16 bits, byte rate fits 32 bits, data chunk fits its size field.
    pub open spec fn wf(&self) -> bool {
        &&& 1 <= self.channels <= 0x7fff
        &&& 1 <= self.sample_rate
        &&& self.sample_rate * self.channels * 2 <= u32::MAX
        &&& self.samples@.len() <= MAX_WAV_SAMPLES
    }

    pub open spec fn spec_sample_rate(&self) -> u32 {
        self.sample_rate
    }

    pub open spec fn spec_channels(&self) -> u16 {
        self.channels
    }

    pub open spec fn spec_samples(&self) -> Seq<i16> {
        self.samples@
    }

    /// A fresh sink for the device's negotiated sample rate and channel
    /// count.
    pub fn new(sample_rate: u32, channels: u16) -> (r: WavSink)
        requires
            1 <= channels <= 0x7fff,
            1 <= sample_rate,
            sample_rate * channels * 2 <= u32::MAX,
        ensures
            r.wf(),
            r.spec_sample_rate() == sample_rate,
            r.spec_channels() == channels,
            r.spec_samples() == Seq::<i16>::empty(),
    {
        let r = WavSink { sample_rate, channels, samples: Vec::new() };
        proof {
            assert(r.spec_samples() =~= Seq::<i16>::empty());
        }
        r
    }

    /// How many samples have been accumulated.
    pub fn sample_count(&self) -> (n: usize)
        ensures
            n == self.spec_samples().len(),
    {
        self.samples.len()
    }

    /// Appends one delivered buffer.
    pub fn append_buffer(&mut self, buf: &Vec<i16>)
        requires
            old(self).wf(),
            old(self).spec_samples().len() + buf@.len() <= MAX_WAV_SAMPLES,
        ensures
            final(self).wf(),
            final(self).spec_samples() == old(self).spec_samples() + buf@,
            final(self).spec_sample_rate() == old(self).spec_sample_rate(),
            final(self).spec_channels() == old(self).spec_channels(),
    {
        let mut i: usize = 0;
        while i < buf.len()
            invariant
                i <= buf@.len(),
                self.samples@ == old(self).samples@ + buf@.take(i as int),
                self.sample_rate == old(self).sample_rate,
                self.channels == old(self).channels,
                old(self).samples@.len() + buf@.len() <= MAX_WAV_SAMPLES,
            decreases buf@.len() - i,
        {
            self.samples.push(buf[i]);
            proof {
                assert((old(self).samples@ + buf@.take(i as int)).push(buf@[i as int])
                    =~= old(self).samples@ + buf@.take(i + 1));
            }
            i += 1;
        }
        proof {
            assert(old(self).samples@ + buf@.take(buf@.len() as int) =~= old(self).samples@
                + buf@);
        }
    }

    /// Consumes the sink and produces the complete WAV byte image.
    pub fn finalize(self) -> (out: Vec<u8>)
        requires
            self.wf(),
        ensures
            out@ == spec_wav_bytes(self.spec_sample_rate(), self.spec_channels(),
                self.spec_samples()),
    {
        let n = self.samples.len();
        let data_size: u32 = (n as u32) * 2;
        let riff_size: u32 = 36 + data_size;
        let byte_rate: u32 = self.sample_rate * (self.channels as u32) * 2;
        let block_align: u16 = self.channels * 2;
        let ghost rate = self.sample_rate;
        let ghost chans = self.channels;
        let ghost samples = self.samples@;
        let mut out: Vec<u8> = Vec::new();
        out.push(0x52);
        out.push(0x49);
        out.push(0x46);
        out.push(0x46);
        push_u32_le(&mut out, riff_size);
        out.push(0x57);
        out.push(0x41);
        out.push(0x56);
        out.push(0x45);
        out.push(0x66);
        out.push(0x6d);
        out.push(0x74);
        out.push(0x20);
        push_u32_le(&mut out, 16);
        push_u16_le(&mut out, 1);
        push_u16_le(&mut out, self.channels);
        push_u32_le(&mut out, self.sample_rate);
        push_u32_le(&mut out, byte_rate);
        push_u16_le(&mut out, block_align);
        push_u16_le(&mut out, 16);
        out.push(0x64);
        out.push(0x61);
        out.push(0x74);
        out.push(0x61);
        push_u32_le(&mut out, data_size);
        proof {
            assert(out@ =~= spec_wav_header(rate, chans, samples.len() as int));
        }
        let mut i: usize = 0;
        while i < n
            invariant
                n == samples.len(),
                i <= n,
                out@ == spec_wav_header(rate, chans, samples.len() as int) + samples_bytes(
                    samples.take(i as int),
                ),
                self.samples@ == samples,
            decreases n - i,
        {
            let v = self.samples[i];
            let pattern: u16 = if v >= 0 {
                v as u16
            } else {
                ((v as i32) + 0x10000) as u16
            };
            push_u16_le(&mut out, pattern);
            proof {
                assert(pattern == i16_pattern(samples[i as int]));
                lemma_samples_bytes_push(samples.take(i as int), samples[i as int]);
                assert(samples.take(i as int).push(samples[i as int]) =~= samples.take(i + 1));
            }
            i += 1;
        }
        proof {
            assert(samples.take(n as int) =~= samples);
        }
        out
    }
}

/// Appends the two little-endian bytes of a 16-bit value.
pub fn push_u16_le(out: &mut Vec<u8>, v: u16)
    ensures
        final(out)@ == old(out)@ + u16_le(v),
{
    out.push((v % 256) as u8);
    out.push((v / 256) as u8);
    proof {
        assert(out@ =~= old(out)@ + u16_le(v));
    }
}

/// Appends the four little-endian bytes of a 32-bit value.
pub fn push_u32_le(out: &mut Vec<u8>, v: u32)
    ensures
        final(out)@ == old(out)@ + u32_le(v),
{
    out.push((v % 256) as u8);
    out.push(((v / 256) % 256) as u8);
    out.push(((v / 65536) % 256) as u8);
    out.push(((v / 16777216) % 256) as u8);
    proof {
        assert(out@ =~= old(out)@ + u32_le(v));
    }
}

} // verus!
