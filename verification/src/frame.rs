//! Frames: what the codec engine reports of a decoded unit, and what the
//! driver hands to its caller.

use crate::fixed::MadFixed32;
use crate::timing::{timer_ticks, timer_to_ticks, MadTimer};
use vstd::prelude::*;

verus! {

/// Audio layer of a frame.
#[derive(Clone, Copy, Debug, PartialEq, Eq, Structural)]
pub enum MadLayer {
    LayerI,
    LayerII,
    LayerIII,
}

/// Channel mode of a frame.
#[derive(Clone, Copy, Debug, PartialEq, Eq, Structural)]
pub enum MadMode {
    SingleChannel,
    DualChannel,
    JointStereo,
    Stereo,
}

/// The header of a frame, as the codec engine decoded it.
#[derive(Clone, Copy, Debug, PartialEq, Eq, Structural)]
pub struct Header {
    /// Audio layer (I, II or III)
    pub layer: MadLayer,
    /// Single Channel, Dual Channel, Joint Stereo or Stereo
    pub mode: MadMode,
    /// Stream bit rate, in bits per second
    pub bit_rate: u32,
    /// Number of samples per second
    pub sample_rate: u32,
    /// Playing time of the frame
    pub duration: MadTimer,
}

/// The output of the engine's synthesis step: per channel a fixed array of
/// samples, of which the first `length` of the first `channels` channels are
/// meaningful.
#[derive(Clone, Debug)]
pub struct Pcm {
    /// Number of samples per second
    pub sample_rate: u32,
    /// Number of channels in use
    pub channels: u16,
    /// Number of samples in use per channel
    pub length: u16,
    /// Raw fixed-point samples, one vector per channel
    pub samples: Vec<Vec<i32>>,
}

/// The mathematical content of a [`Pcm`].
pub struct PcmView {
    pub sample_rate: u32,
    pub channels: u16,
    pub length: u16,
    pub samples: Seq<Seq<i32>>,
}

impl PcmView {
    /// Every channel in use is there and holds the samples in use.
    pub open spec fn wf(self) -> bool {
        &&& self.channels <= self.samples.len()
        &&& forall|c: int| 0 <= c < self.channels ==> self.length <= (#[trigger] self.samples[c]).len()
    }

    /// The samples in use: of each of the first `channels` channels the
    /// first `length` samples, in their order.
    pub open spec fn used(self) -> Seq<Seq<i32>> {
        Seq::new(
            self.channels as nat,
            |c: int| self.samples[c].subrange(0, self.length as int),
        )
    }
}

impl View for Pcm {
    type V = PcmView;

    open spec fn view(&self) -> PcmView {
        PcmView {
            sample_rate: self.sample_rate,
            channels: self.channels,
            length: self.length,
            samples: self.samples.deep_view(),
        }
    }
}

impl Pcm {
    /// Whether every channel in use is there and holds the samples in use.
    pub fn is_well_formed(&self) -> (b: bool)
        ensures
            b == self@.wf(),
    {
        if self.channels as usize > self.samples.len() {
            return false;
        }
        let mut c: usize = 0;
        while c < self.channels as usize
            invariant
                c <= self.channels <= self.samples.len(),
                forall|k: int| 0 <= k < c ==> self.length <= (#[trigger] self@.samples[k]).len(),
            decreases self.channels - c,
        {
            if self.length as usize > self.samples[c].len() {
                assert(self@.samples[c as int].len() == self.samples[c as int].len());
                return false;
            }
            c += 1;
        }
        true
    }
}

/// A decoded frame.
#[derive(Clone, Debug)]
pub struct Frame {
    /// Number of samples per second
    pub sample_rate: u32,
    /// Stream bit rate
    pub bit_rate: u32,
    /// Audio layer (I, II or III)
    pub layer: MadLayer,
    /// Single Channel, Dual Channel, Joint Stereo or Stereo
    pub mode: MadMode,
    /// Samples are organized into a vector of channels. For
    /// stereo, the left channel is channel 0.
    pub samples: Vec<Vec<MadFixed32>>,
    /// The duration of the frame in timer ticks
    pub duration: u64,
    /// The position in timer ticks at the start of the frame
    pub position: u64,
}

/// The mathematical content of a [`Frame`]; a sample is given by its raw
/// fixed-point value.
pub struct FrameView {
    pub sample_rate: u32,
    pub bit_rate: u32,
    pub layer: MadLayer,
    pub mode: MadMode,
    pub samples: Seq<Seq<i32>>,
    pub duration: u64,
    pub position: u64,
}

impl View for Frame {
    type V = FrameView;

    open spec fn view(&self) -> FrameView {
        FrameView {
            sample_rate: self.sample_rate,
            bit_rate: self.bit_rate,
            layer: self.layer,
            mode: self.mode,
            samples: self.samples.deep_view(),
            duration: self.duration,
            position: self.position,
        }
    }
}

/// The frame that stands for `header` alone, at `position`: its data come
/// from the header and it has no samples.
pub open spec fn header_frame(header: Header, position: u64) -> FrameView {
    FrameView {
        sample_rate: header.sample_rate,
        bit_rate: header.bit_rate,
        layer: header.layer,
        mode: header.mode,
        samples: Seq::empty(),
        duration: timer_ticks(header.duration) as u64,
        position,
    }
}

/// The frame for `header` and the synthesised block `pcm`, at `position`: the
/// sample rate is that of the block, the samples are those in use in it, and
/// the rest comes from the header.
pub open spec fn full_frame(header: Header, pcm: PcmView, position: u64) -> FrameView {
    FrameView {
        sample_rate: pcm.sample_rate,
        bit_rate: header.bit_rate,
        layer: header.layer,
        mode: header.mode,
        samples: pcm.used(),
        duration: timer_ticks(header.duration) as u64,
        position,
    }
}

/// The playing time of the frame with `header`, in timer ticks.
pub fn frame_duration(header: &Header) -> (ticks: u64)
    ensures
        ticks == timer_ticks(header.duration),
{
    timer_to_ticks(&header.duration)
}

/// The first `length` samples of `channel`, each as a fixed-point sample.
fn copy_channel(channel: &Vec<i32>, length: usize) -> (out: Vec<MadFixed32>)
    requires
        length <= channel.len(),
    ensures
        out.deep_view() == channel@.subrange(0, length as int),
{
    let mut out: Vec<MadFixed32> = Vec::with_capacity(length);
    let mut i: usize = 0;
    while i < length
        invariant
            i <= length <= channel.len(),
            out.len() == i,
            forall|k: int| 0 <= k < i ==> (#[trigger] out[k])@ == channel[k],
        decreases length - i,
    {
        out.push(MadFixed32::new(channel[i]));
        i += 1;
    }
    out
}

impl Frame {
    /// The frame that stands for `header` alone, at `position`.
    pub fn from_header(header: &Header, position: u64) -> (frame: Frame)
        ensures
            frame@ == header_frame(*header, position),
    {
        let frame = Frame {
            sample_rate: header.sample_rate,
            bit_rate: header.bit_rate,
            layer: header.layer,
            mode: header.mode,
            samples: Vec::new(),
            duration: frame_duration(header),
            position,
        };
        assert(frame.samples.deep_view() =~= Seq::<Seq<i32>>::empty());
        frame
    }

    /// The frame for `header` and the synthesised block `pcm`, at `position`.
    /// The samples are copied channel by channel, and within a channel in
    /// their order.
    pub fn from_pcm(header: &Header, pcm: &Pcm, position: u64) -> (frame: Frame)
        requires
            pcm@.wf(),
        ensures
            frame@ == full_frame(*header, pcm@, position),
            frame@.samples.len() == pcm.channels,
            forall|c: int| 0 <= c < pcm.channels ==> (#[trigger] frame@.samples[c]).len() == pcm.length,
    {
        let channels = pcm.channels as usize;
        let length = pcm.length as usize;
        let mut samples: Vec<Vec<MadFixed32>> = Vec::new();
        let mut c: usize = 0;
        while c < channels
            invariant
                pcm@.wf(),
                c <= channels == pcm.channels,
                length == pcm.length,
                samples.len() == c,
                forall|k: int| 0 <= k < c ==> (#[trigger] samples[k]).deep_view() == pcm@.used()[k],
            decreases channels - c,
        {
            assert(pcm@.samples[c as int] == pcm.samples[c as int]@);
            let channel = copy_channel(&pcm.samples[c], length);
            samples.push(channel);
            c += 1;
        }
        assert(samples.deep_view() =~= pcm@.used());
        Frame {
            sample_rate: pcm.sample_rate,
            bit_rate: header.bit_rate,
            layer: header.layer,
            mode: header.mode,
            samples,
            duration: frame_duration(header),
            position,
        }
    }
}

} // verus!
