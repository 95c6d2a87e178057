//! Which calls on the chip driver answer a MIDI message.

use crate::chip::{AudioChannel, BuiltinEnvelopeShape, ChipCall, Envelope, Error, Register};
use crate::midi::{try_message, MidiMessage};
use crate::session::Session;
use crate::u20::U20;
use vstd::prelude::*;

verus! {

/// Control function: noise frequency.
pub const DATA_ENTRY_MSB: u8 = 6;

/// Control function: level of a sound channel.
pub const CHANNEL_VOLUME: u8 = 7;

/// Control function: I/O port and mixer settings.
pub const GENERAL_PURPOSE_CONTROLLER_1: u8 = 16;

/// Control function: higher half of the envelope buffer.
pub const GENERAL_PURPOSE_CONTROLLER_2: u8 = 17;

/// Control function: lower half of the envelope buffer.
pub const LSB_FOR_GENERAL_PURPOSE_CONTROLLER_2: u8 = 49;

/// The sound channels, in the order in which MIDI channels are dealt to them.
pub open spec fn channels() -> Seq<AudioChannel> {
    seq![AudioChannel::A, AudioChannel::B, AudioChannel::C]
}

/// The waveforms, in the order of the programs that choose them.
pub open spec fn envelope_shapes() -> Seq<BuiltinEnvelopeShape> {
    seq![
        BuiltinEnvelopeShape::FadeIn,
        BuiltinEnvelopeShape::FadeOut,
        BuiltinEnvelopeShape::Saw,
        BuiltinEnvelopeShape::Tooth,
        BuiltinEnvelopeShape::Triangle,
    ]
}

/// The sound channel of a MIDI channel, and whether it is on the second chip.
pub open spec fn sound_channel(index: u8) -> Result<(AudioChannel, bool), Error> {
    if index < 5 {
        Ok((channels()[index as int % 3], index > 2))
    } else {
        Err(Error::RegisterOutOfRange(index))
    }
}

/// The MIDI channel by whose number a message picks a sound channel, if it does.
pub open spec fn addressed_channel(message: MidiMessage) -> Option<u8> {
    match message {
        MidiMessage::NoteOn(c, _, _) => Some(c),
        MidiMessage::NoteOff(c, _, _) => Some(c),
        MidiMessage::ControlChange(c, f, _) => if f == CHANNEL_VOLUME || f
            == GENERAL_PURPOSE_CONTROLLER_1 {
            Some(c)
        } else {
            None
        },
        _ => None,
    }
}

/// The message does not address the last MIDI channel, which is set aside for
/// automatic assignment and has no answer.
pub open spec fn is_answerable(message: MidiMessage) -> bool {
    addressed_channel(message) != Some(15u8)
}

/// The buffer after a message: the second general purpose controller and its
/// low-order twin feed it, and nothing else does.
pub open spec fn buffer_after(message: MidiMessage, buffer: U20) -> int {
    match message {
        MidiMessage::ControlChange(c, f, v) => {
            if f == GENERAL_PURPOSE_CONTROLLER_2 {
                crate::u20::value_after(buffer.value, c, v as u32, true)
            } else if f == LSB_FOR_GENERAL_PURPOSE_CONTROLLER_2 {
                crate::u20::value_after(buffer.value, c, v as u32, false)
            } else {
                buffer.value as int
            }
        },
        _ => buffer.value as int,
    }
}

/// The calls that answer a message which addresses the sound channel `channel`
/// of the chip that `second` tells.
pub open spec fn channel_answer(
    message: MidiMessage,
    channel: AudioChannel,
    second: bool,
) -> Seq<ChipCall> {
    match message {
        MidiMessage::NoteOn(_, n, v) => seq![
            ChipCall::SelectChip(second),
            ChipCall::Tone(channel, n),
            ChipCall::Level(channel, v / 8),
        ],
        MidiMessage::NoteOff(_, _, _) => seq![
            ChipCall::SelectChip(second),
            ChipCall::Level(channel, 0),
        ],
        MidiMessage::ControlChange(_, f, v) => if f == CHANNEL_VOLUME {
            seq![ChipCall::SelectChip(second), ChipCall::Level(channel, v / 8)]
        } else {
            seq![
                ChipCall::SelectChip(second),
                ChipCall::Command(Register::IoPortMixerSettings, v),
            ]
        },
        _ => seq![],
    }
}

/// The chip select of a value that carries one: bit S, the highest of its seven
/// bits. It is set for the second chip.
pub open spec fn chip_select(v: u8) -> bool {
    v / 0x40 % 2 == 1
}

/// The calls that answer a message which addresses no sound channel, where
/// `after` is what the envelope buffer then holds.
pub open spec fn global_answer(message: MidiMessage, after: int) -> Seq<ChipCall> {
    match message {
        MidiMessage::ControlChange(_, f, v) => if f == DATA_ENTRY_MSB {
            seq![ChipCall::SelectChip(chip_select(v)), ChipCall::NoiseFrequency(v % 0x20)]
        } else if f == GENERAL_PURPOSE_CONTROLLER_2 {
            seq![
                ChipCall::SelectChip(chip_select(v)),
                ChipCall::EnvelopeFrequency((after % 0x1_0000) as u16),
            ]
        } else {
            seq![]
        },
        MidiMessage::ProgramChange(_, p) => if 1 <= p <= 5 {
            seq![ChipCall::EnvelopeShape(Envelope::Builtin(envelope_shapes()[p - 1]))]
        } else if 6 <= p <= 10 {
            seq![ChipCall::EnvelopeShape(Envelope::InvertedBuiltin(envelope_shapes()[p - 6]))]
        } else {
            seq![]
        },
        _ => seq![],
    }
}

/// The calls that answer a message, or why it is refused.
pub open spec fn answer_to(message: MidiMessage, buffer: U20) -> Result<Seq<ChipCall>, Error> {
    match addressed_channel(message) {
        Some(c) => match sound_channel(c) {
            Ok((channel, second)) => Ok(channel_answer(message, channel, second)),
            Err(error) => Err(error),
        },
        None => Ok(global_answer(message, buffer_after(message, buffer))),
    }
}

/// `answer` is a session that is about to make the calls which answer the
/// message, or the error for which the message is refused.
pub open spec fn is_answer(
    answer: Result<Session, Error>,
    message: MidiMessage,
    buffer: U20,
) -> bool {
    match (answer, answer_to(message, buffer)) {
        (Ok(session), Ok(calls)) => session.calls() =~= calls && session.position() == 0,
        (Err(error), Err(expected)) => error == expected,
        _ => false,
    }
}

/// The sound channel of a MIDI channel, and whether it is on the second chip.
pub fn parse_channel(index: u8) -> (parsed: Result<(AudioChannel, bool), Error>)
    requires
        index != 15,
    ensures
        parsed == sound_channel(index),
{
    if index < 5 {
        let channel = match index % 3 {
            0 => AudioChannel::A,
            1 => AudioChannel::B,
            _ => AudioChannel::C,
        };
        Ok((channel, index > 2))
    } else {
        Err(Error::RegisterOutOfRange(index))
    }
}

/// The waveform at an index.
fn envelope_shape(index: u8) -> (shape: BuiltinEnvelopeShape)
    requires
        index < 5,
    ensures
        shape == envelope_shapes()[index as int],
{
    match index {
        0 => BuiltinEnvelopeShape::FadeIn,
        1 => BuiltinEnvelopeShape::FadeOut,
        2 => BuiltinEnvelopeShape::Saw,
        3 => BuiltinEnvelopeShape::Tooth,
        _ => BuiltinEnvelopeShape::Triangle,
    }
}

/// The chip select of a value that carries one.
fn is_second_chip(v: u8) -> (second: bool)
    ensures
        second == chip_select(v),
{
    assert((v & 0x40) >> 6 == v / 0x40 % 2) by (bit_vector);
    (v & 0x40) >> 6 == 1
}

/// The answer to a control change. `buffer` takes in the halves of an envelope
/// setting.
fn interpret_control(c: u8, f: u8, v: u8, buffer: &mut U20) -> (answer: Result<
    Vec<ChipCall>,
    Error,
>)
    requires
        is_answerable(MidiMessage::ControlChange(c, f, v)),
    ensures
        final(buffer).value == buffer_after(MidiMessage::ControlChange(c, f, v), *old(buffer)),
        match (answer, answer_to(MidiMessage::ControlChange(c, f, v), *old(buffer))) {
            (Ok(calls), Ok(expected)) => calls@ =~= expected,
            (Err(error), Err(expected)) => error == expected,
            _ => false,
        },
{
    let mut calls: Vec<ChipCall> = Vec::new();
    if f == DATA_ENTRY_MSB {
        // SxNNNNN: chip select, unused, noise frequency.
        assert(v & 0x1F == v % 0x20) by (bit_vector);
        calls.push(ChipCall::SelectChip(is_second_chip(v)));
        calls.push(ChipCall::NoiseFrequency(v & 0x1F));
    } else if f == CHANNEL_VOLUME {
        let (channel, second) = match parse_channel(c) {
            Ok(parsed) => parsed,
            Err(error) => return Err(error),
        };
        calls.push(ChipCall::SelectChip(second));
        calls.push(ChipCall::Level(channel, v / 8));
    } else if f == GENERAL_PURPOSE_CONTROLLER_1 {
        let (_, second) = match parse_channel(c) {
            Ok(parsed) => parsed,
            Err(error) => return Err(error),
        };
        calls.push(ChipCall::SelectChip(second));
        calls.push(ChipCall::Command(Register::IoPortMixerSettings, v));
    } else if f == GENERAL_PURPOSE_CONTROLLER_2 {
        buffer.read(c, v as u32, true);
        let value: u32 = buffer.value;
        assert(value & 0xFFFF == value % 0x1_0000 && value & 0xFFFF < 0x1_0000) by (bit_vector);
        calls.push(ChipCall::SelectChip(is_second_chip(v)));
        calls.push(ChipCall::EnvelopeFrequency((value & 0xFFFF) as u16));
    } else if f == LSB_FOR_GENERAL_PURPOSE_CONTROLLER_2 {
        buffer.read(c, v as u32, false);
    }
    Ok(calls)
}

/// The answer to a message. `buffer` takes in the halves of an envelope setting.
pub fn interpret(message: MidiMessage, buffer: &mut U20) -> (answer: Result<Session, Error>)
    requires
        is_answerable(message),
    ensures
        final(buffer).value == buffer_after(message, *old(buffer)),
        is_answer(answer, message, *old(buffer)),
{
    let mut calls: Vec<ChipCall> = Vec::new();
    match message {
        MidiMessage::NoteOn(c, n, v) => {
            let (channel, second) = match parse_channel(c) {
                Ok(parsed) => parsed,
                Err(error) => return Err(error),
            };
            calls.push(ChipCall::SelectChip(second));
            calls.push(ChipCall::Tone(channel, n));
            calls.push(ChipCall::Level(channel, v / 8));
        },
        MidiMessage::NoteOff(c, _, _) => {
            let (channel, second) = match parse_channel(c) {
                Ok(parsed) => parsed,
                Err(error) => return Err(error),
            };
            calls.push(ChipCall::SelectChip(second));
            calls.push(ChipCall::Level(channel, 0));
        },
        MidiMessage::ControlChange(c, f, v) => {
            calls = match interpret_control(c, f, v, buffer) {
                Ok(calls) => calls,
                Err(error) => return Err(error),
            };
        },
        MidiMessage::ProgramChange(_, p) => {
            if 1 <= p && p <= 5 {
                calls.push(ChipCall::EnvelopeShape(Envelope::Builtin(envelope_shape(p - 1))));
            } else if 6 <= p && p <= 10 {
                calls.push(
                    ChipCall::EnvelopeShape(Envelope::InvertedBuiltin(envelope_shape(p - 6))),
                );
            }
        },
        MidiMessage::Other => {},
    }
    Ok(Session::new(calls))
}

/// Whether a packet holds a message that [`process`] can answer.
pub fn can_process(packet: [u8; 4]) -> (can: bool)
    ensures
        can == (crate::midi::message_of(packet@) matches Some(message) && is_answerable(message)),
{
    match try_message(packet) {
        Ok(MidiMessage::NoteOn(c, _, _)) => c != 15,
        Ok(MidiMessage::NoteOff(c, _, _)) => c != 15,
        Ok(MidiMessage::ControlChange(c, f, _)) => {
            c != 15 || (f != CHANNEL_VOLUME && f != GENERAL_PURPOSE_CONTROLLER_1)
        },
        Ok(_) => true,
        Err(_) => false,
    }
}

/// The answer to a packet. `buffer` takes in the halves of an envelope setting.
pub fn process(packet: [u8; 4], buffer: &mut U20) -> (answer: Result<Session, Error>)
    requires
        crate::midi::message_of(packet@) is Some,
        is_answerable(crate::midi::message_of(packet@)->0),
    ensures
        final(buffer).value == buffer_after(crate::midi::message_of(packet@)->0, *old(buffer)),
        is_answer(answer, crate::midi::message_of(packet@)->0, *old(buffer)),
{
    let message = try_message(packet).unwrap();
    interpret(message, buffer)
}

/// A message is refused exactly if it addresses a MIDI channel that has no sound
/// channel, and a refused message leaves the buffer as it was.
pub proof fn law_refusal_is_for_the_channel_and_changes_nothing(message: MidiMessage, buffer: U20)
    requires
        is_answerable(message),
    ensures
        answer_to(message, buffer) is Err <==> (addressed_channel(message) matches Some(c)
            && c >= 5),
        answer_to(message, buffer) is Err ==> buffer_after(message, buffer) == buffer.value,
        answer_to(message, buffer) matches Err(error) ==> error == Error::RegisterOutOfRange(
            addressed_channel(message)->0,
        ),
{
}

/// No two MIDI channels share a sound channel of the same chip.
pub proof fn law_midi_channels_do_not_collide(one: u8, other: u8)
    requires
        one < 5,
        other < 5,
        one != other,
    ensures
        sound_channel(one) != sound_channel(other),
{
}

/// The sound channel that a call is about, if it is about one.
pub open spec fn call_channel(call: ChipCall) -> Option<AudioChannel> {
    match call {
        ChipCall::Tone(channel, _) => Some(channel),
        ChipCall::Level(channel, _) => Some(channel),
        _ => None,
    }
}

/// The answer to a message that addresses a sound channel first selects the chip
/// of that channel, selects no other afterwards, and touches no other channel.
pub proof fn law_answer_stays_on_its_channel(message: MidiMessage, buffer: U20, i: int)
    requires
        addressed_channel(message) is Some,
        answer_to(message, buffer) is Ok,
        0 <= i < answer_to(message, buffer)->Ok_0.len(),
    ensures
        ({
            let calls = answer_to(message, buffer)->Ok_0;
            let (channel, second) = sound_channel(addressed_channel(message)->0)->Ok_0;
            &&& calls[0] == ChipCall::SelectChip(second)
            &&& i > 0 ==> !(calls[i] is SelectChip)
            &&& call_channel(calls[i]) is Some ==> call_channel(calls[i]) == Some(channel)
        }),
{
}

/// A note that is switched off is silenced where it was switched on: on the same
/// channel of the same chip, whatever its number and velocity.
pub proof fn law_note_off_silences_note_on(
    c: u8,
    n1: u8,
    v1: u8,
    n2: u8,
    v2: u8,
    before: U20,
    after: U20,
)
    requires
        c < 5,
    ensures
        ({
            let on = answer_to(MidiMessage::NoteOn(c, n1, v1), before)->Ok_0;
            let off = answer_to(MidiMessage::NoteOff(c, n2, v2), after)->Ok_0;
            &&& on[0] == off[0]
            &&& on[2] matches ChipCall::Level(channel, _) && off =~= seq![
                on[0],
                ChipCall::Level(channel, 0),
            ]
        }),
{
}

/// The levels that a message with seven-bit values sets fit the four bits that a
/// chip has for them.
pub proof fn law_levels_have_four_bits(packet: Seq<u8>, buffer: U20, i: int)
    requires
        crate::midi::message_of(packet) is Some,
        answer_to(crate::midi::message_of(packet)->0, buffer) is Ok,
        0 <= i < answer_to(crate::midi::message_of(packet)->0, buffer)->Ok_0.len(),
    ensures
        answer_to(crate::midi::message_of(packet)->0, buffer)->Ok_0[i] matches ChipCall::Level(
            _,
            level,
        ) ==> level < 16,
{
    crate::midi::law_message_parts_are_in_range(packet);
}

/// Whatever packets come, the buffer holds nothing but two halves of eleven bits.
pub proof fn law_buffer_keeps_to_its_halves(packet: Seq<u8>, buffer: U20)
    requires
        crate::midi::message_of(packet) is Some,
        buffer.wf(),
    ensures
        0 <= buffer_after(crate::midi::message_of(packet)->0, buffer) < 0x40_0000,
{
    crate::midi::law_message_parts_are_in_range(packet);
}

/// Of a value for the noise generator or for the higher half of the envelope
/// buffer, bit S alone selects the chip, before anything else is done and
/// whatever the channel. The low five bits are the noise frequency.
pub proof fn law_bit_s_selects_the_chip(c: u8, v: u8, buffer: U20)
    requires
        v < 128,
    ensures
        answer_to(MidiMessage::ControlChange(c, DATA_ENTRY_MSB, v), buffer)->Ok_0 =~= seq![
            ChipCall::SelectChip(v >= 0x40),
            ChipCall::NoiseFrequency(v % 0x20),
        ],
        answer_to(MidiMessage::ControlChange(c, GENERAL_PURPOSE_CONTROLLER_2, v), buffer)->Ok_0[0]
            == ChipCall::SelectChip(v >= 0x40),
{
}

/// The programs six to ten choose the waveforms of the programs one to five,
/// upside down.
pub proof fn law_programs_come_in_pairs(c: u8, p: u8, buffer: U20)
    requires
        1 <= p <= 5,
    ensures
        ({
            let upright = answer_to(MidiMessage::ProgramChange(c, p), buffer)->Ok_0;
            let inverted = answer_to(MidiMessage::ProgramChange(c, (p + 5) as u8), buffer)->Ok_0;
            &&& upright.len() == 1 && inverted.len() == 1
            &&& upright[0] matches ChipCall::EnvelopeShape(Envelope::Builtin(shape))
                && inverted[0] == ChipCall::EnvelopeShape(Envelope::InvertedBuiltin(shape))
        }),
{
}

/// The frequency of the envelope generator is the rough and fine adjustment that
/// the buffer then holds, on the chip that the message selects.
pub proof fn law_envelope_frequency_is_the_buffers(c: u8, v: u8, before: U20, after: U20)
    requires
        after.value == buffer_after(
            MidiMessage::ControlChange(c, GENERAL_PURPOSE_CONTROLLER_2, v),
            before,
        ),
    ensures
        answer_to(MidiMessage::ControlChange(c, GENERAL_PURPOSE_CONTROLLER_2, v), before)->Ok_0
            =~= seq![
            ChipCall::SelectChip(chip_select(v)),
            ChipCall::EnvelopeFrequency((after.rough_bits() * 0x100 + after.fine_bits()) as u16),
        ],
{
}

/// A message for the lower half and then one for the higher half set the
/// envelope frequency to the R bits of both and the F bits of the first,
/// whatever the buffer held before.
pub proof fn law_two_messages_set_the_envelope_frequency(
    low_c: u8,
    low_v: u8,
    high_c: u8,
    high_v: u8,
    before: U20,
    between: U20,
)
    requires
        low_c < 16 && low_v < 128,
        high_c < 16 && high_v < 128,
        between.value == buffer_after(
            MidiMessage::ControlChange(low_c, LSB_FOR_GENERAL_PURPOSE_CONTROLLER_2, low_v),
            before,
        ),
    ensures
        answer_to(
            MidiMessage::ControlChange(high_c, GENERAL_PURPOSE_CONTROLLER_2, high_v),
            between,
        )->Ok_0 =~= seq![
            ChipCall::SelectChip(high_v >= 0x40),
            ChipCall::EnvelopeFrequency(
                ((high_v as int % 2 * 128 + high_c * 8 + low_v as int / 16) * 0x100 + low_v as int
                    % 16 * 16 + low_c) as u16,
            ),
        ],
{
    let message = MidiMessage::ControlChange(high_c, GENERAL_PURPOSE_CONTROLLER_2, high_v);
    let after = U20 { value: buffer_after(message, between) as u32 };
    law_bit_s_selects_the_chip(high_c, high_v, between);
    law_envelope_frequency_is_the_buffers(high_c, high_v, between, after);
    crate::u20::law_two_halves_make_the_setting(
        before,
        between,
        after,
        high_c,
        high_v as u32,
        low_c,
        low_v as u32,
        false,
    );
}

/// A message of a kind that the synthesizer does not know calls for nothing and
/// leaves the buffer as it was.
pub proof fn law_other_messages_do_nothing(buffer: U20)
    ensures
        answer_to(MidiMessage::Other, buffer)->Ok_0 =~= seq![],
        answer_to(MidiMessage::Other, buffer) is Ok,
        buffer_after(MidiMessage::Other, buffer) == buffer.value,
{
}

} // verus!
