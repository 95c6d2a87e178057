//! The buffer that joins two MIDI messages into one envelope setting.

use vstd::prelude::*;

verus! {

/// A 20-bit register image for the envelope generator.
///
/// A MIDI message carries only seven bits of data and four bits of channel, so
/// the image is glued together from two messages of eleven bits each:
///
/// ```text
/// SxCTLHR RRRR   RRRFFFF FFFF
/// data    ch     data    ch
/// higher half    lower half
/// ```
///
/// S selects the chip and x is unused; neither is part of the image. C, T, L and
/// H are the shape bits CONT, ATT, ALT and HOLD, R is the rough and F the fine
/// frequency adjustment.
#[derive(Clone, Copy, Debug, PartialEq, Eq, Structural)]
pub struct U20 {
    pub value: u32,
}

/// The eleven bits of a message: `v` above the four bits of `ch`. The bits of
/// `v` that do not fit into 32 after the shift are lost.
pub open spec fn message_bits(ch: u8, v: u32) -> int {
    (v * 16) % 0x1_0000_0000 + ch
}

/// What a message leaves of `value`: the low eleven bits for a message to the
/// higher half, bits 11 to 19 for one to the lower half.
pub open spec fn kept_bits(value: u32, higher: bool) -> int {
    if higher {
        value as int % 0x800
    } else {
        (value as int / 0x800) % 0x200 * 0x800
    }
}

/// `value` with the message in its half: the higher half starts at bit 11.
pub open spec fn value_after(value: u32, ch: u8, v: u32, higher: bool) -> int {
    if higher {
        kept_bits(value, true) + message_bits(ch, v) * 0x800
    } else {
        kept_bits(value, false) + message_bits(ch, v)
    }
}

impl U20 {
    /// Nothing is held but two halves of eleven bits: the image, and above it
    /// the bits S and x.
    pub open spec fn wf(self) -> bool {
        self.value < 0x40_0000
    }

    /// Bits 16 to 19.
    pub open spec fn shape_bits(self) -> int {
        self.value as int / 0x1_0000 % 0x10
    }

    /// Bits 8 to 15.
    pub open spec fn rough_bits(self) -> int {
        self.value as int / 0x100 % 0x100
    }

    /// Bits 0 to 7.
    pub open spec fn fine_bits(self) -> int {
        self.value as int % 0x100
    }

    /// The four shape bits of the envelope: CONT, ATT, ALT and HOLD.
    pub fn get_envelope_shape(&mut self) -> (shape: u8)
        ensures
            shape == old(self).shape_bits(),
            *final(self) == *old(self),
    {
        let value: u32 = self.value;
        assert((value >> 16 & 0x0F) == value / 0x1_0000 % 0x10 && (value >> 16 & 0x0F) < 0x10)
            by (bit_vector);
        (value >> 16 & 0x0F) as u8
    }

    /// The rough frequency adjustment of the envelope.
    pub fn get_rough_adj(&mut self) -> (rough: u8)
        ensures
            rough == old(self).rough_bits(),
            *final(self) == *old(self),
    {
        let value: u32 = self.value;
        assert((value >> 8 & 0xFF) == value / 0x100 % 0x100 && (value >> 8 & 0xFF) < 0x100)
            by (bit_vector);
        (value >> 8 & 0xFF) as u8
    }

    /// The fine frequency adjustment of the envelope.
    pub fn get_fine_adj(&mut self) -> (fine: u8)
        ensures
            fine == old(self).fine_bits(),
            *final(self) == *old(self),
    {
        let value: u32 = self.value;
        assert((value & 0xFF) == value % 0x100 && (value & 0xFF) < 0x100) by (bit_vector);
        (value & 0xFF) as u8
    }

    /// Takes in one message of seven data bits `v` and four channel bits `ch`.
    ///
    /// A message to the lower half replaces bits 0 to 10 and keeps bits 11 to
    /// 19. A message to the higher half is put at bit 11 and up, and bits 0 to 10
    /// are kept.
    pub fn read(&mut self, ch: u8, v: u32, higher: bool)
        requires
            value_after(old(self).value, ch, v, higher) <= u32::MAX,
        ensures
            final(self).value == value_after(old(self).value, ch, v, higher),
    {
        let mask: u32 = 0xFF800 - (0xFF001 * (higher as u32));
        let value: u32 = self.value;
        proof {
            assert(value & 0x7FF == value % 0x800) by (bit_vector);
            assert(value & 0xFF800 == value / 0x800 % 0x200 * 0x800) by (bit_vector);
            assert(v << 4 == (v * 16) % 0x1_0000_0000) by (bit_vector);
        }
        let bits: u32 = (v << 4) + ch as u32;
        let placed: u32 = if higher {
            bits * 0x800
        } else {
            bits
        };
        self.value = (value & mask) + placed;
    }
}

/// The three parts make up the low twenty bits of the buffer.
pub proof fn law_parts_make_up_the_image(buffer: U20)
    ensures
        buffer.value as int % 0x10_0000 == buffer.shape_bits() * 0x1_0000 + buffer.rough_bits()
            * 0x100 + buffer.fine_bits(),
{
}

/// A message to the lower half fills the fine adjustment and the low three bits
/// of the rough one, and leaves the rest of the image alone.
pub proof fn law_lower_half_keeps_the_rest(before: U20, after: U20, ch: u8, v: u32)
    requires
        ch < 16,
        v < 128,
        after.value == value_after(before.value, ch, v, false),
    ensures
        after.value < 0x10_0000,
        after.fine_bits() == v as int % 16 * 16 + ch,
        after.rough_bits() == before.rough_bits() / 8 * 8 + v as int / 16,
        after.shape_bits() == before.shape_bits(),
{
    let (old_image, new_image, low_bits) = (before.value, after.value, ch as u32);
    assert(new_image < 0x10_0000 && new_image % 0x100 == v % 16 * 16 + low_bits && new_image / 0x100
        % 0x100 == old_image / 0x100 % 0x100 / 8 * 8 + v / 16 && new_image / 0x1_0000 % 0x10
        == old_image / 0x1_0000 % 0x10) by (bit_vector)
        requires
            new_image == old_image / 0x800 % 0x200 * 0x800 + v * 16 + low_bits,
            low_bits < 16,
            v < 128,
    ;
}

/// A message to the higher half fills the shape and the upper five bits of the
/// rough adjustment, and leaves the rest of the image alone. The top bit of the
/// buffer is then the chip select of the message.
pub proof fn law_higher_half_keeps_the_rest(before: U20, after: U20, ch: u8, v: u32)
    requires
        ch < 16,
        v < 128,
        after.value == value_after(before.value, ch, v, true),
    ensures
        after.wf(),
        after.shape_bits() == v as int / 2 % 16,
        after.rough_bits() == v as int % 2 * 128 + ch * 8 + before.rough_bits() % 8,
        after.fine_bits() == before.fine_bits(),
        after.value as int / 0x20_0000 == v as int / 0x40,
{
    let (old_image, new_image, low_bits) = (before.value, after.value, ch as u32);
    assert(new_image < 0x40_0000 && new_image % 0x100 == old_image % 0x100 && new_image / 0x100
        % 0x100 == v % 2 * 128 + low_bits * 8 + old_image / 0x100 % 0x100 % 8 && new_image
        / 0x1_0000 % 0x10 == v / 2 % 16 && new_image / 0x20_0000 == v / 0x40) by (bit_vector)
        requires
            new_image == old_image % 0x800 + (v * 16 + low_bits) * 0x800,
            low_bits < 16,
            v < 128,
    ;
}

/// A message to each half, in either order, makes the whole setting, whatever
/// the buffer held before: the shape is CTLH of the higher message, the rough
/// adjustment the R bits of both, and the fine adjustment the F bits of the
/// lower one.
pub proof fn law_two_halves_make_the_setting(
    before: U20,
    between: U20,
    after: U20,
    high_ch: u8,
    high_v: u32,
    low_ch: u8,
    low_v: u32,
    higher_first: bool,
)
    requires
        high_ch < 16 && high_v < 128,
        low_ch < 16 && low_v < 128,
        higher_first ==> {
            &&& between.value == value_after(before.value, high_ch, high_v, true)
            &&& after.value == value_after(between.value, low_ch, low_v, false)
        },
        !higher_first ==> {
            &&& between.value == value_after(before.value, low_ch, low_v, false)
            &&& after.value == value_after(between.value, high_ch, high_v, true)
        },
    ensures
        after.shape_bits() == high_v as int / 2 % 16,
        after.rough_bits() == high_v as int % 2 * 128 + high_ch * 8 + low_v as int / 16,
        after.fine_bits() == low_v as int % 16 * 16 + low_ch,
{
    let (image0, image1, image2) = (before.value, between.value, after.value);
    let (high, low) = (high_ch as u32, low_ch as u32);
    assert(image2 % 0x100 == low_v % 16 * 16 + low && image2 / 0x100 % 0x100 == high_v % 2 * 128
        + high * 8 + low_v / 16 && image2 / 0x1_0000 % 0x10 == high_v / 2 % 16) by (bit_vector)
        requires
            high < 16 && high_v < 128,
            low < 16 && low_v < 128,
            higher_first ==> image1 == image0 % 0x800 + (high_v * 16 + high) * 0x800 && image2
                == image1 / 0x800 % 0x200 * 0x800 + low_v * 16 + low,
            !higher_first ==> image1 == image0 / 0x800 % 0x200 * 0x800 + low_v * 16 + low && image2
                == image1 % 0x800 + (high_v * 16 + high) * 0x800,
    ;
}

/// Of two messages to the same half, the second alone counts.
pub proof fn law_last_message_to_a_half_counts(
    before: U20,
    between: U20,
    after: U20,
    ch1: u8,
    v1: u32,
    ch2: u8,
    v2: u32,
    higher: bool,
)
    requires
        ch1 < 16,
        v1 < 128,
        between.value == value_after(before.value, ch1, v1, higher),
        after.value == value_after(between.value, ch2, v2, higher),
    ensures
        after.value == value_after(before.value, ch2, v2, higher),
{
}

/// A message to the lower half keeps the bits 11 to 19 and puts its own bits
/// below them; one to the higher half keeps the bits 0 to 10 and puts its own
/// above them.
pub proof fn law_messages_are_put_in_their_half(value: u32, ch: u8, v: u32)
    ensures
        value_after(value, ch, v, false) == (value & 0xF_F800) + (v << 4) + ch,
        value_after(value, ch, v, true) == (value & 0x7FF) + ((v << 4) + ch) * 0x800,
{
    assert(value & 0x7FF == value % 0x800 && value & 0xF_F800 == value / 0x800 % 0x200 * 0x800 && v
        << 4 == (v * 16) % 0x1_0000_0000) by (bit_vector);
}

/// The shape is in bits 16 to 19, the rough adjustment in bits 8 to 15 and the
/// fine one in bits 0 to 7.
pub proof fn law_parts_have_their_places(buffer: U20)
    ensures
        buffer.shape_bits() == buffer.value >> 16 & 0xF,
        buffer.rough_bits() == buffer.value >> 8 & 0xFF,
        buffer.fine_bits() == buffer.value & 0xFF,
{
    let value = buffer.value;
    assert(value >> 16 & 0xF == value / 0x1_0000 % 0x10 && value >> 8 & 0xFF == value / 0x100
        % 0x100 && value & 0xFF == value % 0x100) by (bit_vector);
}

} // verus!
