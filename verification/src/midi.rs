//! MIDI messages, as far as the synthesizer answers them.

use usbd_midi::{Message, UsbMidiEventPacket, UsbMidiEventPacketError, UsbMidiPacketReader};
use vstd::prelude::*;

verus! {

/// A MIDI message. Channels are counted from zero, as on the wire.
#[derive(Clone, Copy, Debug, PartialEq, Eq, Structural)]
pub enum MidiMessage {
    /// Channel, note number and velocity.
    NoteOn(u8, u8, u8),
    /// Channel, note number and velocity.
    NoteOff(u8, u8, u8),
    /// Channel, number of the control function and its new value.
    ControlChange(u8, u8, u8),
    /// Channel and program number.
    ProgramChange(u8, u8),
    /// A well-formed message that the synthesizer does not answer.
    Other,
}

/// The error of a packet that holds no MIDI message.
#[verifier::external_type_specification]
#[verifier::external_body]
pub struct ExUsbMidiEventPacketError(UsbMidiEventPacketError);

/// A data byte as a seven-bit value: one that is too large counts as the largest.
pub open spec fn seven_bits(byte: u8) -> u8 {
    if byte > 0x7F {
        0x7F
    } else {
        byte
    }
}

/// A status byte that is a system message without a channel.
pub open spec fn is_system_status(status: u8) -> bool {
    0xF0 < status && status != 0xF4 && status != 0xF5 && status != 0xF7 && status != 0xFD
}

/// The message that the status byte and the two data bytes of a packet stand
/// for. The upper four bits of the status byte tell the kind of a message, the
/// lower four its channel. The highest note number that has a name is 128.
pub open spec fn message_of(packet: Seq<u8>) -> Option<MidiMessage> {
    let status = packet[1];
    let channel = status % 16;
    let kind = status / 16;
    if kind == 0x8 && packet[2] <= 128 {
        Some(MidiMessage::NoteOff(channel, packet[2], seven_bits(packet[3])))
    } else if kind == 0x9 && packet[2] <= 128 {
        Some(MidiMessage::NoteOn(channel, packet[2], seven_bits(packet[3])))
    } else if kind == 0xB {
        Some(MidiMessage::ControlChange(channel, seven_bits(packet[2]), seven_bits(packet[3])))
    } else if kind == 0xC {
        Some(MidiMessage::ProgramChange(channel, seven_bits(packet[2])))
    } else if (kind == 0xA && packet[2] <= 128) || kind == 0xD || kind == 0xE
        || is_system_status(status) {
        Some(MidiMessage::Other)
    } else {
        None
    }
}

/// Calls `usbd_midi`'s `Message::try_from` on the packet that its
/// `UsbMidiEventPacket::try_from` makes of these four bytes.
///
/// The claim: it succeeds exactly where [`message_of`] has a message, and gives
/// that message; the many kinds that the synthesizer ignores are not told
/// apart. Nothing is said of which error a failure brings.
#[verifier::external_body]
pub(crate) fn try_message(packet: [u8; 4]) -> (message: Result<
    MidiMessage,
    UsbMidiEventPacketError,
>)
    ensures
        message is Ok <==> message_of(packet@) is Some,
        message matches Ok(m) ==> message_of(packet@) == Some(m),
{
    let packet = UsbMidiEventPacket::try_from(packet.as_slice())?;
    Ok(match Message::try_from(&packet)? {
        Message::NoteOn(c, n, v) => MidiMessage::NoteOn(c.into(), n.into(), v.into()),
        Message::NoteOff(c, n, v) => MidiMessage::NoteOff(c.into(), n.into(), v.into()),
        Message::ControlChange(c, f, v) => {
            MidiMessage::ControlChange(c.into(), f.0.into(), v.into())
        }
        Message::ProgramChange(c, v) => MidiMessage::ProgramChange(c.into(), v.into()),
        _ => MidiMessage::Other,
    })
}

/// The message in a packet, if there is one.
pub fn decode(packet: [u8; 4]) -> (message: Option<MidiMessage>)
    ensures
        message == message_of(packet@),
{
    match try_message(packet) {
        Ok(message) => Some(message),
        Err(_) => None,
    }
}

/// How many packets `size` received bytes hold in a buffer of 64 bytes. A last
/// packet that is not complete counts too.
pub open spec fn packet_count(size: int) -> int {
    if size > 64 {
        16
    } else {
        (size + 3) / 4
    }
}

/// The bytes of the packet at index `i` in a received buffer.
pub open spec fn packet_bytes(buffer: Seq<u8>, i: int) -> Seq<u8> {
    buffer.subrange(4 * i, 4 * i + 4)
}

/// Walks `usbd_midi`'s `UsbMidiPacketReader` over a received buffer.
///
/// The claim: it hands out [`packet_count`] packets, the successive groups of
/// four bytes from the start of the buffer, and no errors.
#[verifier::external_body]
pub(crate) fn walk_packets(buffer: &[u8; 64], size: usize) -> (packets: Vec<
    Result<[u8; 4], UsbMidiEventPacketError>,
>)
    ensures
        packets@.len() == packet_count(size as int),
        forall|i: int|
            0 <= i < packets@.len() ==> (#[trigger] packets@[i] matches Ok(packet)
                && packet@ == packet_bytes(buffer@, i)),
{
    UsbMidiPacketReader::new(buffer, size).map(|packet| Ok(packet?.to_raw_bytes())).collect()
}

/// The packets of a USB transfer of `size` bytes into `buffer`, in the order in
/// which they came. What the reader cannot give as a packet is skipped.
pub fn received_packets(buffer: &[u8; 64], size: usize) -> (packets: Vec<[u8; 4]>)
    ensures
        packets@.len() == packet_count(size as int),
        forall|i: int|
            0 <= i < packets@.len() ==> (#[trigger] packets@[i])@ == packet_bytes(buffer@, i),
{
    let walked = walk_packets(buffer, size);
    let mut packets: Vec<[u8; 4]> = Vec::new();
    let mut i: usize = 0;
    while i < walked.len()
        invariant
            i <= walked@.len() == packet_count(size as int),
            packets@.len() == i,
            forall|j: int|
                0 <= j < walked@.len() ==> (#[trigger] walked@[j] matches Ok(packet)
                    && packet@ == packet_bytes(buffer@, j)),
            forall|j: int|
                0 <= j < i ==> (#[trigger] packets@[j])@ == packet_bytes(buffer@, j),
        decreases walked@.len() - i,
    {
        if let Ok(packet) = &walked[i] {
            packets.push(*packet);
        }
        i += 1;
    }
    packets
}

/// The first byte of a packet, with its cable number, has no part in the message.
pub proof fn law_header_is_ignored(one: Seq<u8>, other: Seq<u8>)
    requires
        forall|i: int| 1 <= i < 4 ==> one[i] == other[i],
    ensures
        message_of(one) == message_of(other),
{
}

/// What a decoded message holds is in the range of its kind: sixteen channels,
/// seven-bit values, and the note numbers up to 128.
pub proof fn law_message_parts_are_in_range(packet: Seq<u8>)
    ensures
        match message_of(packet) {
            Some(MidiMessage::NoteOn(c, n, v)) => c < 16 && n <= 128 && v < 128,
            Some(MidiMessage::NoteOff(c, n, v)) => c < 16 && n <= 128 && v < 128,
            Some(MidiMessage::ControlChange(c, f, v)) => c < 16 && f < 128 && v < 128,
            Some(MidiMessage::ProgramChange(c, p)) => c < 16 && p < 128,
            _ => true,
        },
{
}

/// Every byte of a transfer that fits its buffer is in one of its packets, at
/// its place.
pub proof fn law_no_byte_is_lost(buffer: [u8; 64], size: usize, packets: Seq<[u8; 4]>, k: int)
    requires
        size <= 64,
        0 <= k < size,
        packets.len() == packet_count(size as int),
        forall|i: int|
            0 <= i < packets.len() ==> (#[trigger] packets[i])@ == packet_bytes(buffer@, i),
    ensures
        k / 4 < packets.len(),
        packets[k / 4]@[k % 4] == buffer@[k],
{
}

/// The upper four bits of the status byte tell a note off, a note on, a control
/// change and a program change, and the lower four are the channel. The data
/// bytes follow in the order of the message; a note number is taken as it is, and
/// any other data byte counts as 127 where it is larger.
pub proof fn law_status_byte_tells_the_message(packet: Seq<u8>, c: u8, data1: u8, data2: u8)
    requires
        packet.len() == 4,
        c < 16,
        data1 == packet[2] || data1 == 127 && packet[2] > 127,
        data1 < 128,
        data2 == packet[3] || data2 == 127 && packet[3] > 127,
        data2 < 128,
    ensures
        packet[1] == 0x80 + c && packet[2] <= 128 ==> message_of(packet) == Some(
            MidiMessage::NoteOff(c, packet[2], data2),
        ),
        packet[1] == 0x90 + c && packet[2] <= 128 ==> message_of(packet) == Some(
            MidiMessage::NoteOn(c, packet[2], data2),
        ),
        packet[1] == 0xB0 + c ==> message_of(packet) == Some(
            MidiMessage::ControlChange(c, data1, data2),
        ),
        packet[1] == 0xC0 + c ==> message_of(packet) == Some(MidiMessage::ProgramChange(c, data1)),
{
}

/// No message is in a packet whose status byte is a data byte or an undefined
/// one, or whose note number is above 128. Every other packet has one, of a kind
/// that goes unanswered if it is none of note on, note off, control change and
/// program change.
pub proof fn law_packets_without_message(packet: Seq<u8>)
    ensures
        message_of(packet) is None <==> {
            ||| packet[1] < 0x80
            ||| packet[1] < 0xB0 && packet[2] > 128
            ||| packet[1] == 0xF0 || packet[1] == 0xF4 || packet[1] == 0xF5
            ||| packet[1] == 0xF7 || packet[1] == 0xFD
        },
        message_of(packet) == Some(MidiMessage::Other) <==> message_of(packet) is Some && (
        packet[1] & 0xF0 == 0xA0 || packet[1] >= 0xD0),
{
    let status = packet[1];
    assert(status & 0xF0 == 0xA0 <==> 0xA0 <= status && status < 0xB0) by (bit_vector);
}

/// A transfer holds a packet for every four bytes and one for what is left, but
/// never more than the sixteen of a full buffer.
pub proof fn law_packets_cover_the_transfer(size: int)
    requires
        0 <= size,
    ensures
        size <= 64 ==> 4 * packet_count(size) - 4 < size <= 4 * packet_count(size),
        size > 64 ==> packet_count(size) == 16,
        0 <= packet_count(size) <= 16,
{
}

/// Packets follow each other without gap or overlap: byte `k` of packet `i` is
/// the byte at `4 * i + k`.
pub proof fn law_packets_lie_end_to_end(buffer: Seq<u8>, i: int, k: int)
    requires
        0 <= i,
        4 * i + 4 <= buffer.len(),
        0 <= k < 4,
    ensures
        packet_bytes(buffer, i).len() == 4,
        packet_bytes(buffer, i)[k] == buffer[4 * i + k],
{
}

} // verus!
