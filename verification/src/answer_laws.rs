//! What the answers to MIDI messages are for.
//!
//! Each law speaks of an answer as [`crate::interpreter::interpret`] gives it,
//! of the message that it answers and of the envelope buffer, and of nothing in
//! between. Control functions are given by their numbers.

use crate::chip::{AudioChannel, BuiltinEnvelopeShape, ChipCall, Envelope, Error, Register};
use crate::midi::MidiMessage;
use crate::session::Session;
use crate::u20::U20;
use vstd::prelude::*;

verus! {

/// The MIDI channels one to five are A, B and C of the first chip and A and B of
/// the second; no other has a sound channel.
pub proof fn law_channels_are_dealt_out_in_order(index: u8)
    ensures
        match crate::interpreter::sound_channel(index) {
            Ok((channel, second)) => {
                &&& index < 5
                &&& second == (index == 3 || index == 4)
                &&& (channel == AudioChannel::A <==> index == 0 || index == 3)
                &&& (channel == AudioChannel::B <==> index == 1 || index == 4)
                &&& (channel == AudioChannel::C <==> index == 2)
            },
            Err(error) => index >= 5 && error == Error::RegisterOutOfRange(index),
        },
{
}

/// A note on selects the chip of its channel, plays its own note, once, and then
/// sets the level to the upper four of the seven bits of its velocity.
pub proof fn law_note_on_plays_its_note(
    c: u8,
    n: u8,
    v: u8,
    buffer: U20,
    answer: Result<Session, Error>,
)
    requires
        c < 5,
        crate::interpreter::is_answer(answer, MidiMessage::NoteOn(c, n, v), buffer),
    ensures
        answer is Ok,
        answer->Ok_0.position() == 0,
        answer->Ok_0.calls().len() == 3,
        answer->Ok_0.calls()[0] == ChipCall::SelectChip(c >= 3),
        answer->Ok_0.calls()[1] is Tone && answer->Ok_0.calls()[1]->Tone_1 == n,
        forall|i: int|
            0 <= i < 3 && (#[trigger] answer->Ok_0.calls()[i]) is Tone ==> i == 1,
        answer->Ok_0.calls()[2] is Level,
        8 * answer->Ok_0.calls()[2]->Level_1 <= v < 8 * answer->Ok_0.calls()[2]->Level_1 + 8,
        answer->Ok_0.calls()[1]->Tone_0 == answer->Ok_0.calls()[2]->Level_0,
        answer->Ok_0.calls()[1]->Tone_0 == AudioChannel::A <==> c == 0 || c == 3,
        answer->Ok_0.calls()[1]->Tone_0 == AudioChannel::B <==> c == 1 || c == 4,
        answer->Ok_0.calls()[1]->Tone_0 == AudioChannel::C <==> c == 2,
{
}

/// Two notes on one channel are told apart by their tones, which are as far from
/// each other as the notes: twelve higher is an octave higher.
pub proof fn law_intervals_are_kept(
    c: u8,
    n1: u8,
    v1: u8,
    n2: u8,
    v2: u8,
    before: U20,
    later: U20,
    first: Result<Session, Error>,
    second: Result<Session, Error>,
)
    requires
        c < 5,
        crate::interpreter::is_answer(first, MidiMessage::NoteOn(c, n1, v1), before),
        crate::interpreter::is_answer(second, MidiMessage::NoteOn(c, n2, v2), later),
    ensures
        second->Ok_0.calls()[1]->Tone_1 - first->Ok_0.calls()[1]->Tone_1 == n2 - n1,
        second->Ok_0.calls()[1]->Tone_0 == first->Ok_0.calls()[1]->Tone_0,
        second->Ok_0.calls()[0] == first->Ok_0.calls()[0],
        v1 <= v2 ==> first->Ok_0.calls()[2]->Level_1 <= second->Ok_0.calls()[2]->Level_1,
{
}

/// A note off makes two calls, whatever its note and velocity: it selects the
/// chip of its channel and sets the level there to zero.
pub proof fn law_note_off_sets_the_level_to_zero(
    c: u8,
    n: u8,
    v: u8,
    buffer: U20,
    answer: Result<Session, Error>,
)
    requires
        c < 5,
        crate::interpreter::is_answer(answer, MidiMessage::NoteOff(c, n, v), buffer),
    ensures
        answer is Ok,
        answer->Ok_0.position() == 0,
        answer->Ok_0.calls().len() == 2,
        answer->Ok_0.calls()[0] == ChipCall::SelectChip(c >= 3),
        answer->Ok_0.calls()[1] is Level && answer->Ok_0.calls()[1]->Level_1 == 0,
        answer->Ok_0.calls()[1]->Level_0 == AudioChannel::A <==> c == 0 || c == 3,
        answer->Ok_0.calls()[1]->Level_0 == AudioChannel::B <==> c == 1 || c == 4,
        answer->Ok_0.calls()[1]->Level_0 == AudioChannel::C <==> c == 2,
{
}

/// Control 7 sets the level of its channel to the upper four of the seven bits
/// of its value, from zero at 0 to fifteen at 127.
pub proof fn law_volume_is_the_upper_four_bits(
    c: u8,
    v: u8,
    buffer: U20,
    answer: Result<Session, Error>,
)
    requires
        c < 5,
        crate::interpreter::is_answer(answer, MidiMessage::ControlChange(c, 7, v), buffer),
    ensures
        answer is Ok,
        answer->Ok_0.position() == 0,
        answer->Ok_0.calls().len() == 2,
        answer->Ok_0.calls()[0] == ChipCall::SelectChip(c >= 3),
        answer->Ok_0.calls()[1] is Level,
        8 * answer->Ok_0.calls()[1]->Level_1 <= v < 8 * answer->Ok_0.calls()[1]->Level_1 + 8,
        v == 0 ==> answer->Ok_0.calls()[1]->Level_1 == 0,
        v == 127 ==> answer->Ok_0.calls()[1]->Level_1 == 15,
        answer->Ok_0.calls()[1]->Level_0 == AudioChannel::A <==> c == 0 || c == 3,
        answer->Ok_0.calls()[1]->Level_0 == AudioChannel::B <==> c == 1 || c == 4,
        answer->Ok_0.calls()[1]->Level_0 == AudioChannel::C <==> c == 2,
{
}

/// The level never falls as the value of control 7 rises.
pub proof fn law_volume_never_falls(
    c: u8,
    v1: u8,
    v2: u8,
    before: U20,
    later: U20,
    first: Result<Session, Error>,
    second: Result<Session, Error>,
)
    requires
        c < 5,
        v1 <= v2,
        crate::interpreter::is_answer(first, MidiMessage::ControlChange(c, 7, v1), before),
        crate::interpreter::is_answer(second, MidiMessage::ControlChange(c, 7, v2), later),
    ensures
        first->Ok_0.calls()[1]->Level_1 <= second->Ok_0.calls()[1]->Level_1,
        first->Ok_0.calls()[1]->Level_0 == second->Ok_0.calls()[1]->Level_0,
{
}

/// Control 7 sets the level that a note on of that velocity sets.
pub proof fn law_volume_and_velocity_agree(
    c: u8,
    n: u8,
    v: u8,
    before: U20,
    later: U20,
    volume: Result<Session, Error>,
    note: Result<Session, Error>,
)
    requires
        c < 5,
        crate::interpreter::is_answer(volume, MidiMessage::ControlChange(c, 7, v), before),
        crate::interpreter::is_answer(note, MidiMessage::NoteOn(c, n, v), later),
    ensures
        volume->Ok_0.calls()[0] == note->Ok_0.calls()[0],
        volume->Ok_0.calls()[1] == note->Ok_0.calls()[2],
{
}

/// Control 16 writes its value to the I/O port and mixer register of the chip of
/// its channel, with no bit changed.
pub proof fn law_mixer_settings_are_written_unchanged(
    c: u8,
    v: u8,
    buffer: U20,
    answer: Result<Session, Error>,
)
    requires
        c < 5,
        crate::interpreter::is_answer(answer, MidiMessage::ControlChange(c, 16, v), buffer),
    ensures
        answer is Ok,
        answer->Ok_0.position() == 0,
        answer->Ok_0.calls().len() == 2,
        answer->Ok_0.calls()[0] == ChipCall::SelectChip(c >= 3),
        answer->Ok_0.calls()[1] is Command,
        answer->Ok_0.calls()[1]->Command_0 == Register::IoPortMixerSettings,
        answer->Ok_0.calls()[1]->Command_1 == v,
{
}

/// Control 6 selects the chip by bit 6 of its value and sets the noise frequency
/// to bits 0 to 4. The channel has no part in it.
pub proof fn law_noise_is_the_low_five_bits(
    c: u8,
    v: u8,
    buffer: U20,
    answer: Result<Session, Error>,
)
    requires
        crate::interpreter::is_answer(answer, MidiMessage::ControlChange(c, 6, v), buffer),
    ensures
        answer is Ok,
        answer->Ok_0.position() == 0,
        answer->Ok_0.calls().len() == 2,
        answer->Ok_0.calls()[0] == ChipCall::SelectChip(v & 0x40 != 0),
        answer->Ok_0.calls()[1] == ChipCall::NoiseFrequency(v & 0x1F),
{
    assert((v & 0x40 != 0) == (v / 0x40 % 2 == 1) && v & 0x1F == v % 0x20) by (bit_vector);
}

/// Control 17 selects the chip by bit 6 of its value and sets the envelope
/// frequency to the low sixteen bits that the buffer then holds.
pub proof fn law_higher_half_sets_the_frequency(
    c: u8,
    v: u8,
    before: U20,
    after: U20,
    answer: Result<Session, Error>,
)
    requires
        crate::interpreter::is_answer(answer, MidiMessage::ControlChange(c, 17, v), before),
        after.value == crate::interpreter::buffer_after(
            MidiMessage::ControlChange(c, 17, v),
            before,
        ),
    ensures
        answer is Ok,
        answer->Ok_0.position() == 0,
        answer->Ok_0.calls().len() == 2,
        answer->Ok_0.calls()[0] == ChipCall::SelectChip(v & 0x40 != 0),
        answer->Ok_0.calls()[1] is EnvelopeFrequency,
        answer->Ok_0.calls()[1]->EnvelopeFrequency_0 == after.value & 0xFFFF,
{
    let value = after.value;
    assert((v & 0x40 != 0) == (v / 0x40 % 2 == 1)) by (bit_vector);
    assert(value & 0xFFFF == value % 0x1_0000) by (bit_vector);
}

/// Control 49 calls for nothing: it only fills the buffer.
pub proof fn law_lower_half_calls_for_nothing(
    c: u8,
    v: u8,
    buffer: U20,
    answer: Result<Session, Error>,
)
    requires
        crate::interpreter::is_answer(answer, MidiMessage::ControlChange(c, 49, v), buffer),
    ensures
        answer is Ok,
        answer->Ok_0.calls().len() == 0,
{
}

/// The controls 17 and 49 fill the buffer bit by bit as their halves are laid
/// out: the other half of the image stays as it was.
pub proof fn law_halves_are_filled_bit_by_bit(c: u8, v: u8, before: U20, after: U20, higher: bool)
    requires
        c < 16,
        v < 128,
        after.value == crate::interpreter::buffer_after(
            MidiMessage::ControlChange(
                c,
                if higher {
                    17
                } else {
                    49
                },
                v,
            ),
            before,
        ),
    ensures
        higher ==> after.value & 0x7FF == before.value & 0x7FF && after.value >> 11 == (v as u32) << 4
            | c as u32,
        !higher ==> after.value & 0x7FF == (v as u32) << 4 | c as u32 && after.value >> 11
            == before.value >> 11 & 0x1FF,
{
    let (old_value, new_value, data, channel) = (before.value, after.value, v as u32, c as u32);
    if higher {
        assert(new_value == old_value % 0x800 + (data * 16 + channel) * 0x800);
        assert(new_value & 0x7FF == old_value & 0x7FF && new_value >> 11 == data << 4 | channel)
            by (bit_vector)
            requires
                new_value == old_value % 0x800 + (data * 16 + channel) * 0x800,
                data < 128 && channel < 16,
        ;
    } else {
        assert(new_value == old_value / 0x800 % 0x200 * 0x800 + data * 16 + channel);
        assert(new_value & 0x7FF == data << 4 | channel && new_value >> 11 == old_value >> 11
            & 0x1FF) by (bit_vector)
            requires
                new_value == old_value / 0x800 % 0x200 * 0x800 + data * 16 + channel,
                data < 128 && channel < 16,
        ;
    }
}

/// No message but the controls 17 and 49 touches the buffer.
pub proof fn law_only_two_controls_touch_the_buffer(message: MidiMessage, buffer: U20)
    requires
        !(message matches MidiMessage::ControlChange(_, f, _) && (f == 17 || f == 49)),
    ensures
        crate::interpreter::buffer_after(message, buffer) == buffer.value,
{
}

/// A control function other than 6, 7, 16, 17 and 49 calls for nothing.
pub proof fn law_other_controls_call_for_nothing(
    c: u8,
    f: u8,
    v: u8,
    buffer: U20,
    answer: Result<Session, Error>,
)
    requires
        f != 6 && f != 7 && f != 16 && f != 17 && f != 49,
        crate::interpreter::is_answer(answer, MidiMessage::ControlChange(c, f, v), buffer),
    ensures
        answer is Ok,
        answer->Ok_0.calls().len() == 0,
{
}

/// The programs one to five choose fade-in, fade-out, saw, tooth and triangle,
/// and six to ten the same upside down, on every channel. Other programs call
/// for nothing.
pub proof fn law_programs_choose_their_waveform(
    c: u8,
    p: u8,
    buffer: U20,
    answer: Result<Session, Error>,
)
    requires
        crate::interpreter::is_answer(answer, MidiMessage::ProgramChange(c, p), buffer),
    ensures
        answer is Ok,
        answer->Ok_0.position() == 0,
        p == 0 || p > 10 ==> answer->Ok_0.calls().len() == 0,
        1 <= p <= 10 ==> answer->Ok_0.calls().len() == 1 && answer->Ok_0.calls()[0]
            is EnvelopeShape,
        1 <= p <= 5 ==> answer->Ok_0.calls()[0]->EnvelopeShape_0 is Builtin,
        6 <= p <= 10 ==> answer->Ok_0.calls()[0]->EnvelopeShape_0 is InvertedBuiltin,
        1 <= p <= 10 ==> {
            let shape = match answer->Ok_0.calls()[0]->EnvelopeShape_0 {
                Envelope::Builtin(shape) => shape,
                Envelope::InvertedBuiltin(shape) => shape,
            };
            &&& (shape == BuiltinEnvelopeShape::FadeIn <==> p == 1 || p == 6)
            &&& (shape == BuiltinEnvelopeShape::FadeOut <==> p == 2 || p == 7)
            &&& (shape == BuiltinEnvelopeShape::Saw <==> p == 3 || p == 8)
            &&& (shape == BuiltinEnvelopeShape::Tooth <==> p == 4 || p == 9)
            &&& (shape == BuiltinEnvelopeShape::Triangle <==> p == 5 || p == 10)
        },
{
}

/// The channel of a program change has no part in its answer.
pub proof fn law_program_ignores_the_channel(
    c1: u8,
    c2: u8,
    p: u8,
    before: U20,
    later: U20,
    first: Result<Session, Error>,
    second: Result<Session, Error>,
)
    requires
        crate::interpreter::is_answer(first, MidiMessage::ProgramChange(c1, p), before),
        crate::interpreter::is_answer(second, MidiMessage::ProgramChange(c2, p), later),
    ensures
        first->Ok_0.calls() =~= second->Ok_0.calls(),
{
}

/// A message of a kind that the synthesizer does not know calls for nothing.
pub proof fn law_unknown_kinds_call_for_nothing(buffer: U20, answer: Result<Session, Error>)
    requires
        crate::interpreter::is_answer(answer, MidiMessage::Other, buffer),
    ensures
        answer is Ok,
        answer->Ok_0.calls().len() == 0,
{
}

/// Note on, note off, volume and mixer settings for a MIDI channel without a
/// sound channel are refused with the number of that channel.
pub proof fn law_channels_without_sound_are_refused(
    message: MidiMessage,
    c: u8,
    buffer: U20,
    answer: Result<Session, Error>,
)
    requires
        5 <= c && c != 15,
        match message {
            MidiMessage::NoteOn(channel, _, _) => channel == c,
            MidiMessage::NoteOff(channel, _, _) => channel == c,
            MidiMessage::ControlChange(channel, f, _) => channel == c && (f == 7 || f == 16),
            _ => false,
        },
        crate::interpreter::is_answer(answer, message, buffer),
    ensures
        answer == Err::<Session, Error>(Error::RegisterOutOfRange(c)),
        crate::interpreter::is_answerable(message),
{
}

/// The messages without an answer are those of the four kinds that pick a sound
/// channel, on the last of the sixteen MIDI channels, and no others.
pub proof fn law_only_the_last_channel_has_no_answer(message: MidiMessage)
    ensures
        !crate::interpreter::is_answerable(message) <==> match message {
            MidiMessage::NoteOn(c, _, _) => c == 15,
            MidiMessage::NoteOff(c, _, _) => c == 15,
            MidiMessage::ControlChange(c, f, _) => c == 15 && (f == 7 || f == 16),
            _ => false,
        },
{
}

} // verus!
