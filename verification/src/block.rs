//! Blocks of interleaved samples: every frame carries one sample for each
//! channel, and the frames of a block follow one another.

use vstd::arithmetic::div_mod::lemma_fundamental_div_mod_converse;
use vstd::prelude::*;

verus! {

/// The block that carries `frames` on `channels` channels: the sample of
/// each frame stands once for every channel, frame after frame.
pub open spec fn interleaved(frames: Seq<u32>, channels: nat) -> Seq<u32> {
    Seq::new(frames.len() * channels, |i: int| frames[i / (channels as int)])
}

/// Builds one block from the samples of its frames, repeating each sample
/// on every channel.
pub fn interleave(frames: &Vec<u32>, channels: usize) -> (block: Vec<u32>)
    ensures
        block@ == interleaved(frames@, channels as nat),
        block@.len() == frames@.len() * channels,
{
    let mut block: Vec<u32> = Vec::new();
    let mut frame: usize = 0;
    while frame < frames.len()
        invariant
            frame <= frames@.len(),
            block@.len() == frame * channels,
            forall|i: int| 0 <= i < block@.len() ==> block@[i] == frames@[i / (channels as int)],
        decreases frames@.len() - frame,
    {
        let sample: u32 = frames[frame];
        let mut channel: usize = 0;
        while channel < channels
            invariant
                frame < frames@.len(),
                channel <= channels,
                sample == frames@[frame as int],
                block@.len() == frame * channels + channel,
                forall|i: int|
                    0 <= i < block@.len() ==> block@[i] == frames@[i / (channels as int)],
            decreases channels - channel,
        {
            proof {
                lemma_fundamental_div_mod_converse(
                    frame * channels + channel,
                    channels as int,
                    frame as int,
                    channel as int,
                );
            }
            block.push(sample);
            channel = channel + 1;
        }
        assert((frame + 1) * channels == frame * channels + channels) by (nonlinear_arith);
        frame = frame + 1;
    }
    assert(block@ =~= interleaved(frames@, channels as nat));
    block
}

/// In a block every channel of a frame carries that frame's sample.
pub proof fn lemma_interleaved_frame(frames: Seq<u32>, channels: nat, frame: int, channel: int)
    requires
        0 <= frame < frames.len(),
        0 <= channel < channels,
    ensures
        0 <= frame * channels + channel < interleaved(frames, channels).len(),
        interleaved(frames, channels)[frame * channels + channel] == frames[frame],
{
    lemma_fundamental_div_mod_converse(
        frame * channels + channel,
        channels as int,
        frame,
        channel,
    );
    assert(frame * channels + channel < frames.len() * channels) by (nonlinear_arith)
        requires
            0 <= frame < frames.len(),
            0 <= channel < channels,
    ;
    assert(0 <= frame * channels) by (nonlinear_arith)
        requires
            0 <= frame,
            0 <= channels,
    ;
}

} // verus!
