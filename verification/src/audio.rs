//! The sound path on the host's side: which output format to ask the sound
//! device for, and the queue of stereo samples between the emulator, which
//! fills it, and the device, which empties it.

use vstd::prelude::*;

verus! {

/// The sample rate that the emulator would like to play at.
pub const WANTED_SAMPLE_RATE: u32 = 44100;

/// The type of one sample in an output format.
#[derive(Debug, Clone, Copy, PartialEq, Eq, Structural)]
pub enum SampleFormat {
    I8,
    I16,
    I32,
    I64,
    U8,
    U16,
    U32,
    U64,
    F32,
    F64,
    /// A format that the emulator has no name for.
    Unknown,
}

/// An output format that the sound device offers, with the range of sample
/// rates at which it offers it.
#[derive(Debug, Clone, Copy)]
pub struct OutputConfigRange {
    pub channels: u16,
    pub sample_format: SampleFormat,
    pub min_sample_rate: u32,
    pub max_sample_rate: u32,
}

/// The format to open the device with: the place of the offer in the
/// device's list, and the sample rate to take it at.
#[derive(Debug, Clone, Copy)]
pub struct OutputChoice {
    pub index: usize,
    pub sample_rate: u32,
}

impl OutputConfigRange {
    /// The emulator plays stereo, in 32-bit floating point.
    pub open spec fn suits(self) -> bool {
        self.channels == 2 && self.sample_format == SampleFormat::F32
    }

    /// The wanted rate where the offer covers it, else the highest it covers.
    pub open spec fn best_rate(self) -> u32 {
        if self.min_sample_rate <= WANTED_SAMPLE_RATE && WANTED_SAMPLE_RATE
            <= self.max_sample_rate {
            WANTED_SAMPLE_RATE
        } else {
            self.max_sample_rate
        }
    }
}

/// Picks the output format: the first offer that suits, at its best rate.
/// Without an offer that suits there is no sound.
pub fn choose_output_config(offers: &[OutputConfigRange]) -> (choice: Option<OutputChoice>)
    ensures
        choice is None <==> forall|i: int| 0 <= i < offers@.len() ==> !offers@[i].suits(),
        choice matches Some(c) ==> {
            &&& c.index < offers@.len()
            &&& offers@[c.index as int].suits()
            &&& forall|i: int| 0 <= i < c.index ==> !offers@[i].suits()
            &&& c.sample_rate == offers@[c.index as int].best_rate()
        },
{
    let mut i: usize = 0;
    while i < offers.len()
        invariant
            i <= offers.len(),
            forall|j: int| 0 <= j < i ==> !offers@[j].suits(),
        decreases offers.len() - i,
    {
        let f = offers[i];
        if f.channels == 2 && f.sample_format == SampleFormat::F32 {
            let sample_rate = if f.min_sample_rate <= WANTED_SAMPLE_RATE && WANTED_SAMPLE_RATE
                <= f.max_sample_rate {
                WANTED_SAMPLE_RATE
            } else {
                f.max_sample_rate
            };
            return Some(OutputChoice { index: i, sample_rate });
        }
        i += 1;
    }
    None
}

/// The stereo samples that two channels of equal progress make: as many as
/// the shorter channel holds.
pub open spec fn paired<T>(left: Seq<T>, right: Seq<T>) -> Seq<(T, T)> {
    Seq::new(
        if left.len() <= right.len() {
            left.len()
        } else {
            right.len()
        },
        |i: int| (left[i], right[i]),
    )
}

/// How many of `offered` samples a queue of `queued` samples takes in: it is
/// filled until it holds more than one second of sound, and no further.
pub open spec fn accepted(queued: nat, offered: nat, sample_rate: u32) -> nat {
    if queued > sample_rate {
        0
    } else if offered <= sample_rate + 1 - queued {
        offered
    } else {
        (sample_rate + 1 - queued) as nat
    }
}

/// Queues the samples of two channels for the device. What does not fit
/// within the limit of `accepted` is dropped.
pub fn queue_samples<T: Copy>(
    buffer: &mut Vec<(T, T)>,
    buf_left: &[T],
    buf_right: &[T],
    sample_rate: u32,
)
    ensures
        final(buffer)@ == old(buffer)@ + paired(buf_left@, buf_right@).take(
            accepted(
                old(buffer)@.len(),
                paired(buf_left@, buf_right@).len(),
                sample_rate,
            ) as int,
        ),
{
    let n = if buf_left.len() <= buf_right.len() {
        buf_left.len()
    } else {
        buf_right.len()
    };
    let ghost pairs = paired(buf_left@, buf_right@);
    let mut i: usize = 0;
    assert(buffer@ =~= old(buffer)@ + pairs.take(0));
    while i < n && buffer.len() <= sample_rate as usize
        invariant
            n == pairs.len(),
            pairs == paired(buf_left@, buf_right@),
            n <= buf_left.len(),
            n <= buf_right.len(),
            i <= n,
            buffer@ == old(buffer)@ + pairs.take(i as int),
            i == accepted(old(buffer)@.len(), i as nat, sample_rate),
        decreases n - i,
    {
        buffer.push((buf_left[i], buf_right[i]));
        proof {
            assert(pairs.take(i + 1) =~= pairs.take(i as int).push(pairs[i as int]));
            assert(buffer@ =~= old(buffer)@ + pairs.take(i + 1));
        }
        i += 1;
    }
}

/// Whether the device has played everything that was queued.
pub fn underflowed<T>(buffer: &Vec<(T, T)>) -> (r: bool)
    ensures
        r == (buffer@.len() == 0),
{
    buffer.len() == 0
}

/// Stereo samples laid out for the device: left, right, left, right.
pub open spec fn interleaved<T>(pairs: Seq<(T, T)>) -> Seq<T> {
    Seq::new(
        2 * pairs.len(),
        |i: int|
            if i % 2 == 0 {
                pairs[i / 2].0
            } else {
                pairs[i / 2].1
            },
    )
}

/// How many stereo samples go into a device buffer of `out_len` single
/// samples when `queued` are waiting.
pub open spec fn frames_to_play(out_len: nat, queued: nat) -> nat {
    if out_len / 2 <= queued {
        out_len / 2
    } else {
        queued
    }
}

/// Takes from the front of the queue what a device buffer of `out_len`
/// single samples can hold, and lays it out for the device.
pub fn take_samples<T: Copy>(buffer: &mut Vec<(T, T)>, out_len: usize) -> (out: Vec<T>)
    ensures
        out@ == interleaved(
            old(buffer)@.take(frames_to_play(out_len as nat, old(buffer)@.len()) as int),
        ),
        final(buffer)@ == old(buffer)@.skip(
            frames_to_play(out_len as nat, old(buffer)@.len()) as int,
        ),
{
    let k = if out_len / 2 <= buffer.len() {
        out_len / 2
    } else {
        buffer.len()
    };
    let rest = buffer.split_off(k);
    let mut out: Vec<T> = Vec::new();
    let mut i: usize = 0;
    assert(out@ =~= interleaved(buffer@.take(0)));
    while i < k
        invariant
            i <= k,
            k == buffer@.len(),
            buffer@ == old(buffer)@.take(k as int),
            out@ == interleaved(buffer@.take(i as int)),
        decreases k - i,
    {
        let (l, r) = buffer[i];
        out.push(l);
        out.push(r);
        proof {
            assert(buffer@.take(i + 1) =~= buffer@.take(i as int).push(buffer@[i as int]));
            assert(out@ =~= interleaved(buffer@.take(i + 1)));
        }
        i += 1;
    }
    assert(buffer@.take(k as int) =~= buffer@);
    *buffer = rest;
    assert(buffer@ =~= old(buffer)@.skip(k as int));
    out
}

/// A sound sink that plays nothing.
#[derive(Debug, Clone, Copy)]
pub struct NullAudioPlayer {}

impl NullAudioPlayer {
    /// Drops the samples.
    pub fn play<T>(&mut self, _buf_left: &[T], _buf_right: &[T])
        ensures
            *final(self) == *old(self),
    {
    }

    /// The rate at which the emulator makes samples for this sink.
    pub fn samples_rate(&self) -> (rate: u32)
        ensures
            rate == WANTED_SAMPLE_RATE,
    {
        WANTED_SAMPLE_RATE
    }

    /// Such a sink never runs dry.
    pub fn underflowed(&self) -> (r: bool)
        ensures
            !r,
    {
        false
    }
}

} // verus!
