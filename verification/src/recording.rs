//! The recording buffer: a toggle, the samples captured while it is on, and
//! the rate at which they were sampled.

use vstd::prelude::*;

verus! {

/// The sample rate of a buffer before the audio device has reported its own.
pub const DEFAULT_SAMPLE_RATE: u32 = 16000;

/// What a recording buffer holds.
#[verifier::ext_equal]
pub struct Buffer<S> {
    pub recording: bool,
    pub samples: Seq<S>,
    pub sample_rate: u32,
}

impl<S> Buffer<S> {
    /// A buffer that is idle and holds nothing.
    pub open spec fn idle(sample_rate: u32) -> Buffer<S> {
        Buffer { recording: false, samples: Seq::empty(), sample_rate }
    }

    /// The buffer after the transition into recording.
    pub open spec fn begin(self) -> Buffer<S> {
        Buffer { recording: true, samples: Seq::empty(), sample_rate: self.sample_rate }
    }

    /// The buffer after the audio source has delivered `incoming`: appended
    /// while recording, dropped otherwise.
    pub open spec fn push(self, incoming: Seq<S>) -> Buffer<S> {
        if self.recording {
            Buffer {
                recording: true,
                samples: self.samples + incoming,
                sample_rate: self.sample_rate,
            }
        } else {
            self
        }
    }

    /// The buffer after the transition out of recording.
    pub open spec fn end(self) -> Buffer<S> {
        Buffer { recording: false, samples: Seq::empty(), sample_rate: self.sample_rate }
    }

    /// The buffer with another sample rate.
    pub open spec fn with_rate(self, sample_rate: u32) -> Buffer<S> {
        Buffer { recording: self.recording, samples: self.samples, sample_rate }
    }

    /// An idle buffer holds no samples.
    pub open spec fn settled(self) -> bool {
        !self.recording ==> self.samples.len() == 0
    }
}

/// A buffer that was made idle and empty holds no samples whenever it is
/// idle: each operation keeps it so.
pub proof fn law_idle_buffers_are_empty<S>(buffer: Buffer<S>, incoming: Seq<S>, sample_rate: u32)
    ensures
        Buffer::<S>::idle(sample_rate).settled(),
        buffer.begin().settled(),
        buffer.end().settled(),
        buffer.settled() ==> buffer.push(incoming).settled(),
        buffer.settled() ==> buffer.with_rate(sample_rate).settled(),
{
}

/// The recording toggle with the audio captured so far.
pub struct RecordingState<S> {
    is_recording: bool,
    audio_data: Vec<S>,
    sample_rate: u32,
}

impl<S> View for RecordingState<S> {
    type V = Buffer<S>;

    closed spec fn view(&self) -> Buffer<S> {
        Buffer {
            recording: self.is_recording,
            samples: self.audio_data@,
            sample_rate: self.sample_rate,
        }
    }
}

impl<S> RecordingState<S> {
    /// An idle, empty buffer at the default sample rate.
    pub fn new() -> (state: RecordingState<S>)
        ensures
            state@ == Buffer::<S>::idle(DEFAULT_SAMPLE_RATE),
    {
        RecordingState { is_recording: false, audio_data: Vec::new(), sample_rate: DEFAULT_SAMPLE_RATE }
    }

    /// Whether the toggle is set.
    pub fn is_recording(&self) -> (recording: bool)
        ensures
            recording == self@.recording,
    {
        self.is_recording
    }

    /// The rate at which the samples are taken, in hertz.
    pub fn sample_rate(&self) -> (sample_rate: u32)
        ensures
            sample_rate == self@.sample_rate,
    {
        self.sample_rate
    }

    /// Takes over the rate that the audio device reports. Nothing else
    /// changes.
    pub fn set_sample_rate(&mut self, sample_rate: u32)
        ensures
            final(self)@ == old(self)@.with_rate(sample_rate),
    {
        self.sample_rate = sample_rate;
    }

    /// Sets the toggle and clears what the buffer held.
    pub fn begin(&mut self)
        requires
            !old(self)@.recording,
        ensures
            final(self)@ == old(self)@.begin(),
    {
        self.audio_data.clear();
        self.is_recording = true;
    }

    /// Clears the toggle and hands out the samples captured since `begin`,
    /// with their rate. The buffer keeps none of them.
    pub fn end(&mut self) -> (captured: (Vec<S>, u32))
        requires
            old(self)@.recording,
        ensures
            final(self)@ == old(self)@.end(),
            captured.0@ == old(self)@.samples,
            captured.1 == old(self)@.sample_rate,
    {
        self.is_recording = false;
        let mut samples: Vec<S> = Vec::new();
        core::mem::swap(&mut self.audio_data, &mut samples);
        (samples, self.sample_rate)
    }
}

impl<S: Copy> RecordingState<S> {
    /// Takes what the audio source delivers: appended while recording,
    /// dropped otherwise.
    pub fn push(&mut self, samples: &[S])
        ensures
            final(self)@ == old(self)@.push(samples@),
    {
        if self.is_recording {
            let count: usize = samples.len();
            let mut i: usize = 0;
            while i < count
                invariant
                    i <= count,
                    count == samples@.len(),
                    self.is_recording,
                    self.sample_rate == old(self).sample_rate,
                    self.audio_data@ == old(self).audio_data@ + samples@.take(i as int),
                decreases count - i,
            {
                self.audio_data.push(samples[i]);
                i += 1;
                assert(samples@.take(i as int) =~= samples@.take(i - 1).push(samples@[i - 1]));
            }
            assert(samples@.take(count as int) =~= samples@);
        }
    }
}

} // verus!
