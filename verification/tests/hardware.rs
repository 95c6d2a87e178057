use dual_ym2149::audio_channel::AudioChannelData;
use dual_ym2149::bus::{BusStep, BusTiming, Command, DataBusController};
use dual_ym2149::chip::{AudioChannel, BaseNote, Note};
use dual_ym2149::delay::delay_ns;
use dual_ym2149::music_test::{chord, test_round, TestCall, ToneSwitches};

fn steps(pairs: &[(u32, u32)]) -> Vec<BusStep> {
    pairs.iter().map(|&(pins, hold_ns)| BusStep { pins, hold_ns }).collect()
}

#[test]
fn a_write_to_the_first_chip() {
    let controller = DataBusController::new(BusTiming::Synthesizer);
    assert!(!controller.b_active);
    assert_eq!(
        controller.execute(Command { register: 8, value: 0x0F }),
        steps(&[
            (0xC000, 81),
            (0xC020, 301),
            (0x0020, 81),
            (0, 500),
            (0x003C, 2),
            (0x803C, 300),
            (0x003C, 81),
            (0, 500),
        ])
    );
}

#[test]
fn a_write_to_the_second_chip_with_other_times() {
    let mut controller = DataBusController::new(BusTiming::MusicTest);
    controller.b_active = true;
    assert_eq!(
        controller.execute(Command { register: 0xFF, value: 1 }),
        steps(&[
            (0x30000, 100),
            (0x303FC, 350),
            (0x003FC, 100),
            (0, 500),
            (0x00004, 5),
            (0x20004, 400),
            (0x00004, 100),
            (0, 500),
        ])
    );
}

#[test]
fn hold_times_meet_the_limits_of_the_chip() {
    for timing in [BusTiming::Synthesizer, BusTiming::MusicTest] {
        let times = timing.hold_times();
        assert!(times.address_hold > 80);
        assert!(times.address_setup > 300);
        assert!(times.data_setup > 0);
        assert!(times.data_write >= 300 && times.data_write <= 10_000);
        assert!(times.data_hold > 80);

        let steps = DataBusController::new(timing).execute(Command { register: 1, value: 2 });
        assert!(steps[1].hold_ns > 300);
        assert!(steps[2].hold_ns > 80);
        assert!(steps[6].hold_ns > 80);
    }
}

#[test]
fn the_other_chip_is_left_alone() {
    for (b_active, others) in [(false, 0x30000u32), (true, 0x0C000)] {
        let mut controller = DataBusController::new(BusTiming::Synthesizer);
        controller.b_active = b_active;
        for step in controller.execute(Command { register: 0xFF, value: 0xFF }) {
            assert_eq!(step.pins & others, 0);
            assert_eq!(step.pins & !(0x3FC | 0x3C000), 0);
        }
    }
}

#[test]
fn a_new_channel_is_silent() {
    let data = AudioChannelData::new(9);
    assert_eq!(data.address, 9);
    assert!(!data.enabled);
    assert!(!data.noise_enabled);
    assert_eq!(data.level, 0);
    assert_eq!(data.pitch_bend, 0);
    assert_eq!(data.last_note, None);
}

#[test]
fn pitch_bend_counts_from_the_centre_of_the_wheel() {
    let mut data = AudioChannelData::new(1);
    data.level = 7;
    data.set_pitch_bend(0, 0);
    assert_eq!(data.pitch_bend, -8192);
    assert_eq!(data.pitch_bend as f32 / 1024.0, -8.0);
    data.set_pitch_bend(127, 127);
    assert_eq!(data.pitch_bend, 8191);
    data.set_pitch_bend(0, 64);
    assert_eq!(data.pitch_bend, 0);
    data.set_pitch_bend(255, 255);
    assert_eq!(data.pitch_bend, 255 * 128 + 255 - 8192);
    assert_eq!(data.level, 7);
    assert_eq!(data.address, 1);
}

#[test]
fn delays_are_split_into_microseconds() {
    assert_eq!(delay_ns(0), 0);
    assert_eq!(delay_ns(1), 0);
    assert_eq!(delay_ns(1000), 0);
    assert_eq!(delay_ns(1001), 1);
    assert_eq!(delay_ns(2000), 1);
    assert_eq!(delay_ns(2001), 2);
    assert_eq!(delay_ns(u32::MAX), 4_294_967);
}

#[test]
fn the_chord_runs_from_c3_to_b4() {
    let notes = chord();
    assert_eq!(notes[0], Note { base: BaseNote::C, octave: 3 });
    assert_eq!(notes[1], Note { base: BaseNote::G, octave: 3 });
    assert_eq!(notes[2], Note { base: BaseNote::C, octave: 4 });
    assert_eq!(notes[3], Note { base: BaseNote::E, octave: 4 });
    assert_eq!(notes[4], Note { base: BaseNote::G, octave: 4 });
    assert_eq!(notes[5], Note { base: BaseNote::B, octave: 4 });
}

#[test]
fn a_round_plays_three_notes_and_changes_the_chip() {
    let notes = chord();
    for b_active in [false, true] {
        assert_eq!(
            test_round(&notes, b_active),
            vec![
                TestCall::SetupIoAndMixer(ToneSwitches {
                    tone_ch_a: true,
                    tone_ch_b: true,
                    tone_ch_c: true,
                }),
                TestCall::Level(AudioChannel::A, 15),
                TestCall::Level(AudioChannel::B, 15),
                TestCall::Level(AudioChannel::C, 15),
                TestCall::PlayNote(AudioChannel::A, notes[0]),
                TestCall::PlayNote(AudioChannel::A, notes[1]),
                TestCall::PlayNote(AudioChannel::A, notes[2]),
                TestCall::SelectChip(!b_active),
            ]
        );
    }
}
