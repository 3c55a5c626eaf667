use wave::block::interleave;
use wave::wave::{Wave, WaveType};

fn note(channels: usize) -> Wave {
    Wave::new(
        440.0f32.to_bits(),
        1.0f32.to_bits(),
        44100,
        channels,
        4,
        WaveType::Sine,
        Some(2.0f32.to_bits()),
        100.0f32.to_bits(),
    )
}

#[test]
fn one_channel_keeps_the_frames_as_they_are() {
    let frames = vec![1, 2, 3];
    assert_eq!(interleave(&frames, 1), vec![1, 2, 3]);
}

#[test]
fn two_channels_carry_each_sample_twice() {
    let frames = vec![7, 9, 11];
    assert_eq!(interleave(&frames, 2), vec![7, 7, 9, 9, 11, 11]);
}

#[test]
fn a_block_holds_frames_times_channels_samples() {
    let frames: Vec<u32> = (0..512).collect();
    let block = interleave(&frames, 6);
    assert_eq!(block.len(), 512 * 6);
    for (i, sample) in block.iter().enumerate() {
        assert_eq!(*sample, frames[i / 6]);
    }
}

#[test]
fn no_channels_make_an_empty_block() {
    assert_eq!(interleave(&vec![1, 2, 3], 0), Vec::<u32>::new());
}

#[test]
fn no_frames_make_an_empty_block() {
    assert_eq!(interleave(&Vec::new(), 2), Vec::<u32>::new());
}

#[test]
fn float_samples_pass_through_a_block_bit_for_bit() {
    let samples = [0.0f32, 0.5, -0.5, 1.0, -1.0, f32::MIN_POSITIVE];
    let frames: Vec<u32> = samples.iter().map(|s| s.to_bits()).collect();
    let block = interleave(&frames, 2);
    for (i, sample) in samples.iter().enumerate() {
        assert_eq!(f32::from_bits(block[2 * i]), *sample);
        assert_eq!(f32::from_bits(block[2 * i + 1]), *sample);
    }
}

#[test]
fn a_new_wave_keeps_what_it_was_given() {
    let wave = note(2);
    assert_eq!(f32::from_bits(wave.frequency), 440.0);
    assert_eq!(f32::from_bits(wave.amplitude), 1.0);
    assert_eq!(wave.sample_rate, 44100);
    assert_eq!(wave.channels, 2);
    assert_eq!(wave.buffer_size, 4);
    assert_eq!(wave.wave_type, WaveType::Sine);
    assert_eq!(wave.duration.map(f32::from_bits), Some(2.0));
    assert_eq!(f32::from_bits(wave.attack_duration), 100.0);
    assert_eq!(wave.value, None);
}

#[test]
fn a_wave_builds_blocks_for_its_channels_and_remembers_the_last_sample() {
    let mut wave = note(2);
    let block = wave.block(&vec![3, 4, 5, 6]);
    assert_eq!(block, vec![3, 3, 4, 4, 5, 5, 6, 6]);
    assert_eq!(wave.value, Some(6));
    assert_eq!(wave.channels, 2);
    assert_eq!(wave.sample_rate, 44100);
}

#[test]
fn an_empty_block_leaves_the_last_sample_alone() {
    let mut wave = note(2);
    assert_eq!(wave.block(&Vec::new()), Vec::<u32>::new());
    assert_eq!(wave.value, None);
    wave.block(&vec![8]);
    assert_eq!(wave.value, Some(8));
    wave.block(&Vec::new());
    assert_eq!(wave.value, Some(8));
}

#[test]
fn the_generator_ends_when_its_block_is_not_taken() {
    let held = Wave::new(1, 2, 44100, 2, 4, WaveType::Sine, None, 0);
    assert!(held.stops_after(false, false));
    assert!(held.stops_after(false, true));
    assert!(note(2).stops_after(false, false));
    assert!(note(2).stops_after(false, true));
}

#[test]
fn a_note_with_a_duration_ends_when_the_duration_is_reached() {
    assert!(note(2).stops_after(true, true));
    assert!(!note(2).stops_after(true, false));
}

#[test]
fn a_note_without_a_duration_goes_on_while_its_blocks_are_taken() {
    let held = Wave::new(1, 2, 44100, 2, 4, WaveType::Sine, None, 0);
    assert!(!held.stops_after(true, false));
    assert!(!held.stops_after(true, true));
}
