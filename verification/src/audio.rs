//! Frame resampling.
//!
//! Inbound room audio arrives as signed 16-bit mono samples at a fixed
//! rate.  The transcription service expects unsigned 8-bit samples, so
//! each sample is re-encoded by shifting the signed range onto the
//! unsigned one.  Re-encoding is pure and deterministic, and an empty
//! frame yields an empty byte sequence rather than an error.

use vstd::prelude::*;

verus! {

/// Channel count declared to the transcription service (mono).
pub const NUM_OF_CHANNELS: u32 = 1;

/// Sample rate declared to the transcription service, in hertz.
pub const SAMPLE_RATE: u32 = 44100;

/// One inbound audio frame: mono samples at the fixed rate.
pub struct AudioFrame {
    pub samples: Vec<i16>,
    pub sample_rate: u32,
    pub num_channels: u32,
}

/// The byte a signed 16-bit sample is re-encoded as: the signed range
/// `-32768..=32767` shifted and scaled onto `0..=255`.
pub open spec fn spec_sample_to_u8(s: i16) -> u8 {
    (((s as int) + 32768) / 256) as u8
}

/// The re-encoding of a whole sample sequence.
pub open spec fn spec_resample(samples: Seq<i16>) -> Seq<u8> {
    samples.map_values(|s: i16| spec_sample_to_u8(s))
}

impl AudioFrame {
    /// A frame is well-formed when it carries the declared mono format
    /// at the declared sample rate.
    pub open spec fn wf(self) -> bool {
        self.sample_rate == SAMPLE_RATE && self.num_channels == NUM_OF_CHANNELS
    }

    pub fn new(samples: Vec<i16>) -> (frame: AudioFrame)
        ensures
            frame.wf(),
            frame.samples@ == samples@,
    {
        AudioFrame { samples, sample_rate: SAMPLE_RATE, num_channels: NUM_OF_CHANNELS }
    }
}

/// Re-encode one signed 16-bit sample as an unsigned 8-bit sample.
pub fn sample_to_u8(s: i16) -> (r: u8)
    ensures
        r == spec_sample_to_u8(s),
{
    let shifted: i32 = (s as i32) + 32768;
    (shifted / 256) as u8
}

/// Re-encode a whole frame for the transcription service.
///
/// The output has one byte per sample, in sample order; an empty frame
/// yields an empty output.
pub fn resample(frame: &AudioFrame) -> (out: Vec<u8>)
    ensures
        out@ == spec_resample(frame.samples@),
        out@.len() == frame.samples@.len(),
{
    let mut out: Vec<u8> = Vec::new();
    let n = frame.samples.len();
    let mut i: usize = 0;
    while i < n
        invariant
            0 <= i <= n,
            n == frame.samples@.len(),
            out@.len() == i,
            forall|j: int| 0 <= j < i ==> out@[j] == spec_sample_to_u8(frame.samples@[j]),
        decreases n - i,
    {
        let b = sample_to_u8(frame.samples[i]);
        out.push(b);
        i += 1;
    }
    proof {
        assert(out@ =~= spec_resample(frame.samples@));
    }
    out
}

/// Idempotent resampling: the encoding of a sample sequence is a
/// function of the samples alone, so re-encoding the same frame twice
/// yields identical byte output.
pub proof fn lemma_resample_idempotent(samples: Seq<i16>, first: Seq<u8>, second: Seq<u8>)
    requires
        first == spec_resample(samples),
        second == spec_resample(samples),
    ensures
        first == second,
{
}

} // verus!
