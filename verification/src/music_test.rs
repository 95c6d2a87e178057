//! The rounds of the test tune.

use crate::chip::{AudioChannel, BaseNote, Note};
use vstd::prelude::*;

verus! {

/// The level at which the test plays: the loudest.
pub const TEST_LEVEL: u8 = 0x0F;

/// Which channels let their tone through. Everything else in the mixer is left
/// at its default.
#[derive(Clone, Copy, Debug, PartialEq, Eq, Structural)]
pub struct ToneSwitches {
    pub tone_ch_a: bool,
    pub tone_ch_b: bool,
    pub tone_ch_c: bool,
}

/// One call on the driver during the test.
#[derive(Clone, Copy, Debug, PartialEq, Eq, Structural)]
pub enum TestCall {
    SetupIoAndMixer(ToneSwitches),
    Level(AudioChannel, u8),
    PlayNote(AudioChannel, Note),
    SelectChip(bool),
}

/// The notes of the test chord, from the lowest up.
pub open spec fn chord_notes() -> Seq<Note> {
    seq![
        Note { base: BaseNote::C, octave: 3 },
        Note { base: BaseNote::G, octave: 3 },
        Note { base: BaseNote::C, octave: 4 },
        Note { base: BaseNote::E, octave: 4 },
        Note { base: BaseNote::G, octave: 4 },
        Note { base: BaseNote::B, octave: 4 },
    ]
}

/// The calls of one round.
pub open spec fn round_calls(chord: Seq<Note>, b_active: bool) -> Seq<TestCall> {
    seq![
        TestCall::SetupIoAndMixer(
            ToneSwitches { tone_ch_a: true, tone_ch_b: true, tone_ch_c: true },
        ),
        TestCall::Level(AudioChannel::A, TEST_LEVEL),
        TestCall::Level(AudioChannel::B, TEST_LEVEL),
        TestCall::Level(AudioChannel::C, TEST_LEVEL),
        TestCall::PlayNote(AudioChannel::A, chord[0]),
        TestCall::PlayNote(AudioChannel::A, chord[1]),
        TestCall::PlayNote(AudioChannel::A, chord[2]),
        TestCall::SelectChip(!b_active),
    ]
}

/// The test chord.
pub fn chord() -> (notes: [Note; 6])
    ensures
        notes@ =~= chord_notes(),
{
    [
        Note { base: BaseNote::C, octave: 3 },
        Note { base: BaseNote::G, octave: 3 },
        Note { base: BaseNote::C, octave: 4 },
        Note { base: BaseNote::E, octave: 4 },
        Note { base: BaseNote::G, octave: 4 },
        Note { base: BaseNote::B, octave: 4 },
    ]
}

/// One round of the test: opens all tones, sets every level, plays the three
/// lowest notes on channel A one after the other, and turns to the other chip.
pub fn test_round(chord: &[Note; 6], b_active: bool) -> (calls: Vec<TestCall>)
    ensures
        calls@ =~= round_calls(chord@, b_active),
{
    let mut calls: Vec<TestCall> = Vec::new();
    calls.push(
        TestCall::SetupIoAndMixer(
            ToneSwitches { tone_ch_a: true, tone_ch_b: true, tone_ch_c: true },
        ),
    );
    calls.push(TestCall::Level(AudioChannel::A, TEST_LEVEL));
    calls.push(TestCall::Level(AudioChannel::B, TEST_LEVEL));
    calls.push(TestCall::Level(AudioChannel::C, TEST_LEVEL));
    let ghost opening = calls@;
    let mut i: usize = 0;
    while i < 3
        invariant
            i <= 3,
            opening =~= round_calls(chord@, b_active).take(4),
            calls@ =~= opening + Seq::new(
                i as nat,
                |j: int| TestCall::PlayNote(AudioChannel::A, chord@[j]),
            ),
        decreases 3 - i,
    {
        calls.push(TestCall::PlayNote(AudioChannel::A, chord[i]));
        i += 1;
    }
    calls.push(TestCall::SelectChip(!b_active));
    calls
}

/// The chip that a round's calls leave selected, where `b_active` was before.
pub open spec fn selected_after(calls: Seq<TestCall>, b_active: bool) -> bool
    decreases calls.len(),
{
    if calls.len() == 0 {
        b_active
    } else {
        match calls.last() {
            TestCall::SelectChip(second) => second,
            _ => selected_after(calls.drop_last(), b_active),
        }
    }
}

/// The rounds take turns between the chips: each leaves the other one selected,
/// and two bring the first back.
pub proof fn law_rounds_alternate_between_the_chips(chord: Seq<Note>, b_active: bool)
    ensures
        selected_after(round_calls(chord, b_active), b_active) == !b_active,
        selected_after(round_calls(chord, !b_active), !b_active) == b_active,
{
}

/// A round lets all tones through before any is heard, sets all three channels
/// to the loudest of the sixteen levels, and then plays the first three notes of
/// the chord on channel A, in their order. It ends on the other chip.
pub proof fn law_round_plays_the_first_three_notes(chord: Seq<Note>, b_active: bool, i: int)
    requires
        0 <= i < 3,
    ensures
        round_calls(chord, b_active).len() == 8,
        round_calls(chord, b_active)[0] matches TestCall::SetupIoAndMixer(tones) && tones.tone_ch_a
            && tones.tone_ch_b && tones.tone_ch_c,
        round_calls(chord, b_active)[1 + i] matches TestCall::Level(channel, level) && level == 15
            && (channel == AudioChannel::A <==> i == 0) && (channel == AudioChannel::C <==> i == 2),
        round_calls(chord, b_active)[4 + i] == TestCall::PlayNote(AudioChannel::A, chord[i]),
        round_calls(chord, b_active)[7] == TestCall::SelectChip(!b_active),
{
}

/// The chord is a C and a G, and an octave above that C a major seventh chord:
/// C, E, G and B.
pub proof fn law_chord_is_a_major_seventh()
    ensures
        chord_notes().len() == 6,
        forall|i: int|
            0 <= i < 6 ==> (#[trigger] chord_notes()[i]).octave == (if i < 2 {
                3int
            } else {
                4int
            }),
        chord_notes()[0].base == BaseNote::C && chord_notes()[1].base == BaseNote::G,
        chord_notes()[2].base == BaseNote::C && chord_notes()[3].base == BaseNote::E,
        chord_notes()[4].base == BaseNote::G && chord_notes()[5].base == BaseNote::B,
{
}

} // verus!
