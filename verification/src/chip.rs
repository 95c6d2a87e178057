//! The vocabulary of the YM2149 driver, in plain values.

use vstd::prelude::*;

verus! {

/// A sound channel of one chip.
#[derive(Clone, Copy, Debug, PartialEq, Eq, Structural)]
pub enum AudioChannel {
    A,
    B,
    C,
}

/// The named waveforms of the envelope generator.
#[derive(Clone, Copy, Debug, PartialEq, Eq, Structural)]
pub enum BuiltinEnvelopeShape {
    FadeIn,
    FadeOut,
    Saw,
    Tooth,
    Triangle,
}

/// A waveform of the envelope generator, upright or upside down.
#[derive(Clone, Copy, Debug, PartialEq, Eq, Structural)]
pub enum Envelope {
    Builtin(BuiltinEnvelopeShape),
    InvertedBuiltin(BuiltinEnvelopeShape),
}

/// A register that is written as a whole.
#[derive(Clone, Copy, Debug, PartialEq, Eq, Structural)]
pub enum Register {
    IoPortMixerSettings,
}

/// The natural notes of the test chord.
#[derive(Clone, Copy, Debug, PartialEq, Eq, Structural)]
pub enum BaseNote {
    C,
    E,
    G,
    B,
}

/// A note of the scale in some octave.
#[derive(Clone, Copy, Debug, PartialEq, Eq, Structural)]
pub struct Note {
    pub base: BaseNote,
    pub octave: u8,
}

/// Why a message is refused.
#[derive(Clone, Copy, Debug, PartialEq, Eq, Structural)]
pub enum Error {
    /// No sound channel belongs to this MIDI channel.
    RegisterOutOfRange(u8),
}

/// One call on the driver of the two chips.
#[derive(Clone, Copy, Debug, PartialEq, Eq, Structural)]
pub enum ChipCall {
    /// Route what follows to the second chip, or else to the first.
    SelectChip(bool),
    /// Set the tone of a channel to the frequency of a MIDI note number.
    Tone(AudioChannel, u8),
    /// Set the level of a channel.
    Level(AudioChannel, u8),
    /// Set the frequency of the noise generator.
    NoiseFrequency(u8),
    /// Write a register.
    Command(Register, u8),
    /// Set the frequency of the envelope generator.
    EnvelopeFrequency(u16),
    /// Set the waveform of the envelope generator.
    EnvelopeShape(Envelope),
}

impl ChipCall {
    /// An error of this call ends the answer to the message. The errors of the
    /// other calls are ignored.
    pub open spec fn is_checked(self) -> bool {
        self is Tone || self is NoiseFrequency || self is EnvelopeFrequency
    }

    /// Whether an error of this call ends the answer to the message.
    pub fn checked(&self) -> (checked: bool)
        ensures
            checked == self.is_checked(),
    {
        match self {
            ChipCall::Tone(_, _) => true,
            ChipCall::NoiseFrequency(_) => true,
            ChipCall::EnvelopeFrequency(_) => true,
            _ => false,
        }
    }
}

/// The errors that end an answer are those of tone, noise frequency and envelope
/// frequency, whatever values they are called with.
pub proof fn law_frequencies_are_checked(call: ChipCall)
    ensures
        call.is_checked() == match call {
            ChipCall::Tone(_, _) => true,
            ChipCall::NoiseFrequency(_) => true,
            ChipCall::EnvelopeFrequency(_) => true,
            ChipCall::SelectChip(_) => false,
            ChipCall::Level(_, _) => false,
            ChipCall::Command(_, _) => false,
            ChipCall::EnvelopeShape(_) => false,
        },
{
}

} // verus!
