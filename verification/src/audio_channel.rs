//! What is known of a sound channel.

use crate::chip::Note;
use vstd::prelude::*;

verus! {

/// Tracks the current state of a sound channel of the YM2149.
#[derive(Debug, Clone, Copy, PartialEq, Eq)]
pub struct AudioChannelData {
    pub address: u8,
    pub enabled: bool,
    pub noise_enabled: bool,
    pub level: u8,
    /// The pitch bend, in 1024ths of a semitone.
    pub pitch_bend: i32,
    pub last_note: Option<Note>,
}

/// The centre of the pitch wheel, where no bend is in force.
pub const PITCH_CENTRE: i32 = 8192;

/// The position of the pitch wheel from its two data bytes, the low one first.
pub open spec fn wheel_position(byte1: u8, byte2: u8) -> int {
    byte2 * 128 + byte1
}

impl AudioChannelData {
    /// The data of the channel at the given register address: silent, with no
    /// bend and no note.
    pub fn new(address: u8) -> (data: Self)
        ensures
            data == (AudioChannelData {
                address,
                enabled: false,
                noise_enabled: false,
                level: 0,
                pitch_bend: 0,
                last_note: None,
            }),
    {
        Self {
            address,
            enabled: false,
            noise_enabled: false,
            level: 0,
            pitch_bend: 0,
            last_note: None,
        }
    }

    /// Sets the channel's pitch bend from the two data bytes of a pitch wheel
    /// message.
    pub fn set_pitch_bend(&mut self, byte1: u8, byte2: u8)
        ensures
            final(self).pitch_bend == wheel_position(byte1, byte2) - PITCH_CENTRE,
            *final(self) == (AudioChannelData { pitch_bend: final(self).pitch_bend, ..*old(self) }),
    {
        let high: u16 = byte2 as u16;
        assert(high << 7 == high * 128) by (bit_vector)
            requires
                high < 0x100,
        ;
        let new: u16 = (high << 7) + byte1 as u16;
        self.pitch_bend = new as i32 - PITCH_CENTRE;
    }
}

/// Different positions of the wheel, with data bytes of seven bits, give
/// different bends, and all lie within eight semitones of the centre.
pub proof fn law_bends_are_distinct_and_bounded(low1: u8, high1: u8, low2: u8, high2: u8)
    requires
        low1 < 128 && high1 < 128,
        low2 < 128 && high2 < 128,
    ensures
        wheel_position(low1, high1) == wheel_position(low2, high2) ==> low1 == low2 && high1
            == high2,
        -8 * 1024 <= wheel_position(low1, high1) - PITCH_CENTRE < 8 * 1024,
{
}

/// One step of the low byte bends by one unit and one step of the high byte by
/// 128; with the low byte at zero and the high byte at 64 there is no bend.
pub proof fn law_bends_follow_the_wheel(low: u8, high: u8)
    ensures
        low < 255 ==> wheel_position((low + 1) as u8, high) == wheel_position(low, high) + 1,
        high < 255 ==> wheel_position(low, (high + 1) as u8) == wheel_position(low, high) + 128,
        low == 0 && high == 64 ==> wheel_position(low, high) - PITCH_CENTRE == 0,
        wheel_position(low, high) - PITCH_CENTRE == (high - 64) * 128 + low,
{
}

} // verus!
