use simplemad::frame::frame_duration;
use simplemad::{Frame, Header, MadLayer, MadMode, MadTimer, Pcm};

fn header() -> Header {
    Header {
        layer: MadLayer::LayerIII,
        mode: MadMode::JointStereo,
        bit_rate: 128_000,
        sample_rate: 44_100,
        duration: MadTimer { seconds: 0, fraction: 9_216_000 },
    }
}

fn block(channels: u16, length: u16) -> Pcm {
    let mut samples = Vec::new();
    for c in 0..2 {
        let mut channel = Vec::new();
        for i in 0..1152 {
            channel.push(c * 10_000 + i);
        }
        samples.push(channel);
    }
    Pcm { sample_rate: 22_050, channels, length, samples }
}

#[test]
fn frame_duration_is_the_duration_of_the_header() {
    assert_eq!(frame_duration(&header()), 9_216_000);
    let mut long = header();
    long.duration = MadTimer { seconds: 2, fraction: 5 };
    assert_eq!(frame_duration(&long), 705_600_005);
}

#[test]
fn a_frame_from_a_header_has_no_samples() {
    let frame = Frame::from_header(&header(), 77);
    assert_eq!(frame.sample_rate, 44_100);
    assert_eq!(frame.bit_rate, 128_000);
    assert_eq!(frame.layer, MadLayer::LayerIII);
    assert_eq!(frame.mode, MadMode::JointStereo);
    assert_eq!(frame.samples.len(), 0);
    assert_eq!(frame.duration, 9_216_000);
    assert_eq!(frame.position, 77);
}

#[test]
fn a_full_frame_holds_the_samples_in_use() {
    let frame = Frame::from_pcm(&header(), &block(2, 1152), 5);
    assert_eq!(frame.sample_rate, 22_050);
    assert_eq!(frame.bit_rate, 128_000);
    assert_eq!(frame.layer, MadLayer::LayerIII);
    assert_eq!(frame.mode, MadMode::JointStereo);
    assert_eq!(frame.duration, 9_216_000);
    assert_eq!(frame.position, 5);
    assert_eq!(frame.samples.len(), 2);
    for c in 0..2 {
        assert_eq!(frame.samples[c].len(), 1152);
        for i in 0..1152 {
            assert_eq!(frame.samples[c][i].to_raw(), (c * 10_000 + i) as i32);
        }
    }
}

#[test]
fn a_full_frame_leaves_out_what_is_not_in_use() {
    let frame = Frame::from_pcm(&header(), &block(1, 576), 0);
    assert_eq!(frame.samples.len(), 1);
    assert_eq!(frame.samples[0].len(), 576);
    assert_eq!(frame.samples[0][0].to_raw(), 0);
    assert_eq!(frame.samples[0][575].to_raw(), 575);

    let silent = Frame::from_pcm(&header(), &block(2, 0), 0);
    assert_eq!(silent.samples.len(), 2);
    assert_eq!(silent.samples[0].len(), 0);
    assert_eq!(silent.samples[1].len(), 0);

    let none = Frame::from_pcm(&header(), &block(0, 1152), 0);
    assert_eq!(none.samples.len(), 0);
}

#[test]
fn a_block_is_well_formed_when_it_holds_what_is_in_use() {
    assert!(block(2, 1152).is_well_formed());
    assert!(block(1, 576).is_well_formed());
    assert!(block(0, 0).is_well_formed());
    assert!(!block(3, 1152).is_well_formed());
    assert!(!block(2, 1153).is_well_formed());
    // What is not in use may be missing.
    assert!(block(0, 2000).is_well_formed());
    let mut ragged = block(2, 1152);
    ragged.samples[1].truncate(1151);
    assert!(!ragged.is_well_formed());
    ragged.channels = 1;
    assert!(ragged.is_well_formed());
}
