use dual_ym2149::midi::{decode, received_packets, MidiMessage};

#[test]
fn channel_messages_are_decoded() {
    assert_eq!(decode([0x09, 0x90, 36, 127]), Some(MidiMessage::NoteOn(0, 36, 127)));
    assert_eq!(decode([0x08, 0x83, 60, 64]), Some(MidiMessage::NoteOff(3, 60, 64)));
    assert_eq!(decode([0x0B, 0xB1, 7, 32]), Some(MidiMessage::ControlChange(1, 7, 32)));
    assert_eq!(decode([0x1C, 0xCF, 5, 0]), Some(MidiMessage::ProgramChange(15, 5)));
    assert_eq!(decode([0x0E, 0xE0, 64, 32]), Some(MidiMessage::Other));
    assert_eq!(decode([0x0D, 0xD0, 64, 0]), Some(MidiMessage::Other));
}

#[test]
fn data_bytes_beyond_seven_bits_count_as_the_largest() {
    assert_eq!(decode([0x09, 0x90, 36, 200]), Some(MidiMessage::NoteOn(0, 36, 127)));
    assert_eq!(decode([0x0B, 0xB0, 255, 128]), Some(MidiMessage::ControlChange(0, 127, 127)));
    assert_eq!(decode([0x0C, 0xC2, 130, 0]), Some(MidiMessage::ProgramChange(2, 127)));
}

#[test]
fn the_highest_note_is_128() {
    assert_eq!(decode([0x09, 0x94, 128, 1]), Some(MidiMessage::NoteOn(4, 128, 1)));
    assert_eq!(decode([0x09, 0x94, 129, 1]), None);
    assert_eq!(decode([0x08, 0x84, 129, 1]), None);
    assert_eq!(decode([0x0A, 0xA4, 128, 1]), Some(MidiMessage::Other));
    assert_eq!(decode([0x0A, 0xA4, 129, 1]), None);
}

#[test]
fn bytes_that_are_no_message_are_rejected() {
    assert_eq!(decode([0x04, 0xF0, 1, 2]), None);
    assert_eq!(decode([0x05, 0xF7, 0, 0]), None);
    assert_eq!(decode([0x02, 0xF4, 0, 0]), None);
    assert_eq!(decode([0x0F, 0xFD, 0, 0]), None);
    assert_eq!(decode([0x00, 0x00, 0, 0]), None);
    assert_eq!(decode([0x00, 0x7F, 1, 1]), None);
}

fn seven_bits(byte: u8) -> u8 {
    byte.min(0x7F)
}

#[test]
fn every_status_byte_is_decoded_as_its_kind_says() {
    let system = [0xF1, 0xF2, 0xF3, 0xF6, 0xF8, 0xF9, 0xFA, 0xFB, 0xFC, 0xFE, 0xFF];
    for status in 0..=255u8 {
        for first in 0..=255u8 {
            for second in [0u8, 1, 63, 127, 128, 255] {
                let channel = status & 0x0F;
                let expected = match status >> 4 {
                    0x8 if first <= 128 => {
                        Some(MidiMessage::NoteOff(channel, first, seven_bits(second)))
                    }
                    0x9 if first <= 128 => {
                        Some(MidiMessage::NoteOn(channel, first, seven_bits(second)))
                    }
                    0xA if first <= 128 => Some(MidiMessage::Other),
                    0xB => Some(MidiMessage::ControlChange(
                        channel,
                        seven_bits(first),
                        seven_bits(second),
                    )),
                    0xC => Some(MidiMessage::ProgramChange(channel, seven_bits(first))),
                    0xD | 0xE => Some(MidiMessage::Other),
                    0xF if system.contains(&status) => Some(MidiMessage::Other),
                    _ => None,
                };
                assert_eq!(decode([first, status, first, second]), expected);
            }
        }
    }
}

#[test]
fn the_header_has_no_part_in_the_message() {
    for header in 0..=255u8 {
        assert_eq!(decode([header, 0x92, 40, 9]), Some(MidiMessage::NoteOn(2, 40, 9)));
    }
}

fn numbered_buffer() -> [u8; 64] {
    let mut buffer = [0u8; 64];
    for i in 0..64 {
        buffer[i] = i as u8 + 100;
    }
    buffer
}

#[test]
fn a_transfer_is_split_into_packets_of_four() {
    let packets = received_packets(&numbered_buffer(), 8);
    assert_eq!(packets, vec![[100, 101, 102, 103], [104, 105, 106, 107]]);
}

#[test]
fn an_empty_transfer_has_no_packets() {
    assert!(received_packets(&numbered_buffer(), 0).is_empty());
}

#[test]
fn a_broken_last_packet_is_still_handed_out() {
    let packets = received_packets(&numbered_buffer(), 5);
    assert_eq!(packets, vec![[100, 101, 102, 103], [104, 105, 106, 107]]);
}

#[test]
fn no_byte_of_a_transfer_is_lost() {
    let buffer = numbered_buffer();
    for size in 0..=80usize {
        let packets = received_packets(&buffer, size);
        assert_eq!(packets.len(), (size.min(64) + 3) / 4);
        for k in 0..size.min(64) {
            assert_eq!(packets[k / 4][k % 4], buffer[k]);
        }
    }
    assert_eq!(received_packets(&buffer, usize::MAX).len(), 16);
}
