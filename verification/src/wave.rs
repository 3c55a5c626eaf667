//! Waveform kinds and the description of one note.

use crate::block::{interleave, interleaved};
use crate::ring::{max_ring_capacity, SampleRing};
use crate::session::{is_supported, PlayError, PlaybackSession, SampleFormat, SessionState};
use vstd::prelude::*;

verus! {

/// The shape of one period of the oscillator.
#[derive(Debug, Copy, Clone, PartialEq, Eq, Structural)]
pub enum WaveType {
    Sine,
    Square,
    Sawtooth,
    Triangle,
}

/// The waveform that follows `wave_type` in the selection cycle
/// Sine, Square, Sawtooth, Triangle, Sine.
pub open spec fn next_wave_type(wave_type: WaveType) -> WaveType {
    match wave_type {
        WaveType::Sine => WaveType::Square,
        WaveType::Square => WaveType::Sawtooth,
        WaveType::Sawtooth => WaveType::Triangle,
        WaveType::Triangle => WaveType::Sine,
    }
}

/// Steps to the next waveform of the selection cycle.
pub fn switch_wave_type(wave_type: WaveType) -> (next: WaveType)
    ensures
        next == next_wave_type(wave_type),
{
    match wave_type {
        WaveType::Sine => WaveType::Square,
        WaveType::Square => WaveType::Sawtooth,
        WaveType::Sawtooth => WaveType::Triangle,
        WaveType::Triangle => WaveType::Sine,
    }
}

/// Four steps through the selection cycle lead back to where they began,
/// and fewer do not.
pub proof fn lemma_wave_types_cycle(wave_type: WaveType)
    ensures
        next_wave_type(next_wave_type(next_wave_type(next_wave_type(wave_type)))) == wave_type,
        next_wave_type(wave_type) != wave_type,
        next_wave_type(next_wave_type(wave_type)) != wave_type,
        next_wave_type(next_wave_type(next_wave_type(wave_type))) != wave_type,
{
}

/// The description of one note. Frequency, amplitude, duration and attack
/// are kept as the bit patterns of their single-precision values: frequency
/// in hertz, amplitude between zero and one, duration in seconds (`None` for
/// a note that is held without end), attack in milliseconds.
#[derive(Debug, Copy, Clone)]
pub struct Wave {
    pub frequency: u32,
    pub amplitude: u32,
    pub sample_rate: u32,
    pub channels: usize,
    pub buffer_size: usize,
    pub wave_type: WaveType,
    pub duration: Option<u32>,
    pub attack_duration: u32,
    /// The sample of the last frame that was put into a block.
    pub value: Option<u32>,
}

impl Wave {
    /// Describes a note of which no sample has been generated yet.
    pub fn new(
        frequency: u32,
        amplitude: u32,
        sample_rate: u32,
        channels: usize,
        buffer_size: usize,
        wave_type: WaveType,
        duration: Option<u32>,
        attack_duration: u32,
    ) -> (wave: Wave)
        ensures
            wave == (Wave {
                frequency,
                amplitude,
                sample_rate,
                channels,
                buffer_size,
                wave_type,
                duration,
                attack_duration,
                value: None,
            }),
    {
        Wave {
            frequency,
            amplitude,
            sample_rate,
            channels,
            buffer_size,
            wave_type,
            duration,
            attack_duration,
            value: None,
        }
    }

    /// Builds the block of the note's next frames: the sample of each frame
    /// is repeated on every channel of the note. The note remembers the
    /// sample of the last frame.
    pub fn block(&mut self, frames: &Vec<u32>) -> (block: Vec<u32>)
        ensures
            block@ == interleaved(frames@, old(self).channels as nat),
            *final(self) == (Wave {
                value: if frames@.len() > 0 {
                    Some(frames@.last())
                } else {
                    old(self).value
                },
                ..*old(self)
            }),
    {
        if frames.len() > 0 {
            self.value = Some(frames[frames.len() - 1]);
        }
        interleave(frames, self.channels)
    }

    /// Whether the generator ends after a block: it does when the block
    /// could not be sent, and when the note has a duration and the time
    /// generated so far has reached it. A note without a duration ends only
    /// when its blocks are no longer taken.
    pub fn stops_after(&self, sent: bool, duration_reached: bool) -> (stops: bool)
        ensures
            stops == (!sent || (self.duration.is_some() && duration_reached)),
    {
        !sent || (self.duration.is_some() && duration_reached)
    }

    /// Sets up the session that plays the note into a stream of the given
    /// sample format: an empty ring for `buffer_size` frames of the note's
    /// channels, with the session active. No session is made where that
    /// ring could not exist, nor for a stream that does not take 32-bit
    /// floats.
    pub fn play(self, buffer_size: usize, format: SampleFormat) -> (session: Result<
        PlaybackSession,
        PlayError,
    >)
        ensures
            match session {
                Ok(session) => {
                    &&& 0 < buffer_size * self.channels <= max_ring_capacity()
                    &&& is_supported(format)
                    &&& session.wave == self
                    &&& session.ring@ == Seq::<u32>::empty()
                    &&& session.ring.spec_capacity() == buffer_size * self.channels
                    &&& session.state == SessionState::Active
                },
                Err(PlayError::RingCapacity) => !(0 < buffer_size * self.channels
                    <= max_ring_capacity()),
                Err(PlayError::UnsupportedSampleFormat) => 0 < buffer_size * self.channels
                    <= max_ring_capacity() && !is_supported(format),
            },
    {
        let capacity: usize = match buffer_size.checked_mul(self.channels) {
            Some(capacity) => capacity,
            None => { return Err(PlayError::RingCapacity); },
        };
        if capacity == 0 || capacity > SampleRing::max_capacity() {
            return Err(PlayError::RingCapacity);
        }
        if !format.supported() {
            return Err(PlayError::UnsupportedSampleFormat);
        }
        match SampleRing::new(capacity) {
            Some(ring) => Ok(PlaybackSession { wave: self, ring, state: SessionState::Active }),
            None => Err(PlayError::RingCapacity),
        }
    }
}

} // verus!
