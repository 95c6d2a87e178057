//! The answers to a whole USB transfer.

use crate::chip::{ChipCall, Error};
use crate::interpreter::{can_process, process};
use crate::midi::{received_packets, MidiMessage};
use crate::session::Session;
use crate::u20::U20;
use vstd::prelude::*;

verus! {

/// The answers to the packets of a transfer, in the order of the packets.
#[derive(Debug)]
pub struct Transfer {
    pub answers: Vec<Result<Session, Error>>,
    /// A packet came that holds no message, or one that cannot be answered. The
    /// answers are those to the packets before it; the synthesizer then halts.
    pub halted: bool,
}

/// The packet holds a message that can be answered.
pub open spec fn is_processable(packet: Seq<u8>) -> bool {
    crate::midi::message_of(packet) matches Some(message) && crate::interpreter::is_answerable(
        message,
    )
}

/// The envelope buffer when packet `i` of a transfer comes. It is empty at the
/// start of each transfer.
pub open spec fn buffer_before(received: Seq<u8>, i: int) -> U20
    decreases i,
{
    if i <= 0 {
        U20 { value: 0 }
    } else {
        U20 {
            value: crate::interpreter::buffer_after(
                crate::midi::message_of(crate::midi::packet_bytes(received, i - 1))->0,
                buffer_before(received, i - 1),
            ) as u32,
        }
    }
}

/// `answer` is the answer to packet `i` of a transfer, which can be processed.
pub open spec fn is_answer_to_packet(
    answer: Result<Session, Error>,
    received: Seq<u8>,
    i: int,
) -> bool {
    let packet = crate::midi::packet_bytes(received, i);
    &&& is_processable(packet)
    &&& crate::interpreter::is_answer(
        answer,
        crate::midi::message_of(packet)->0,
        buffer_before(received, i),
    )
}

/// Answers the packets of a transfer of `size` bytes into `received`, one after
/// the other, up to the first that cannot be processed.
pub fn answer_transfer(received: &[u8; 64], size: usize) -> (transfer: Transfer)
    ensures
        transfer.answers@.len() <= crate::midi::packet_count(size as int),
        forall|i: int|
            0 <= i < transfer.answers@.len() ==> is_answer_to_packet(
                #[trigger] transfer.answers@[i],
                received@,
                i,
            ),
        transfer.halted <==> transfer.answers@.len() < crate::midi::packet_count(size as int),
        transfer.halted ==> !is_processable(
            crate::midi::packet_bytes(received@, transfer.answers@.len() as int),
        ),
{
    let packets = received_packets(received, size);
    let mut buffer: U20 = U20 { value: 0 };
    let mut answers: Vec<Result<Session, Error>> = Vec::new();
    let mut i: usize = 0;
    while i < packets.len()
        invariant
            i <= packets@.len() == crate::midi::packet_count(size as int),
            forall|j: int|
                0 <= j < packets@.len() ==> (#[trigger] packets@[j])@ == crate::midi::packet_bytes(
                    received@,
                    j,
                ),
            buffer == buffer_before(received@, i as int),
            answers@.len() == i,
            forall|j: int|
                0 <= j < i ==> is_answer_to_packet(#[trigger] answers@[j], received@, j),
        decreases packets@.len() - i,
    {
        let packet: [u8; 4] = packets[i];
        assert(packet@ == crate::midi::packet_bytes(received@, i as int));
        if !can_process(packet) {
            return Transfer { answers, halted: true };
        }
        let answer = process(packet, &mut buffer);
        answers.push(answer);
        i += 1;
    }
    Transfer { answers, halted: false }
}

/// All through a transfer the envelope buffer holds nothing but two halves of
/// eleven bits, as long as the packets hold messages.
pub proof fn law_buffer_keeps_to_its_halves_all_along(received: Seq<u8>, i: int)
    requires
        0 <= i,
        forall|j: int|
            0 <= j < i ==> is_processable(#[trigger] crate::midi::packet_bytes(received, j)),
    ensures
        buffer_before(received, i).wf(),
    decreases i,
{
    if i > 0 {
        law_buffer_keeps_to_its_halves_all_along(received, i - 1);
        let packet = crate::midi::packet_bytes(received, i - 1);
        assert(is_processable(packet));
        crate::interpreter::law_buffer_keeps_to_its_halves(
            packet,
            buffer_before(received, i - 1),
        );
    }
}

/// The buffer is empty when the first packet of a transfer comes, and only what
/// the packets do to it comes between one packet and the next.
pub proof fn law_buffer_is_carried_to_the_next_packet(received: Seq<u8>, i: int)
    requires
        0 <= i,
        crate::midi::message_of(received.subrange(4 * i, 4 * i + 4)) is Some,
    ensures
        buffer_before(received, 0).value == 0,
        buffer_before(received, i + 1).value == crate::interpreter::buffer_after(
            crate::midi::message_of(received.subrange(4 * i, 4 * i + 4))->0,
            buffer_before(received, i),
        ),
{
    crate::midi::law_message_parts_are_in_range(received.subrange(4 * i, 4 * i + 4));
}

/// From one packet to another the buffer stays as it is where every packet from
/// the first on holds a message and none is a control change of 17 or 49.
pub proof fn law_buffer_stays_between_its_controls(received: Seq<u8>, from: int, to: int)
    requires
        0 <= from <= to,
        forall|j: int|
            from <= j < to ==> match crate::midi::message_of(
                #[trigger] received.subrange(4 * j, 4 * j + 4),
            ) {
                Some(MidiMessage::ControlChange(_, f, _)) => f != 17 && f != 49,
                Some(_) => true,
                None => false,
            },
    ensures
        buffer_before(received, to) == buffer_before(received, from),
    decreases to - from,
{
    if from < to {
        law_buffer_stays_between_its_controls(received, from, to - 1);
        assert(crate::midi::message_of(received.subrange(4 * (to - 1), 4 * (to - 1) + 4)) is Some);
        law_buffer_is_carried_to_the_next_packet(received, to - 1);
    }
}

/// Wherever they stand in a transfer, a control change of 49 and a later one of
/// 17, with no other of the two between them, set the envelope frequency to the
/// R and F bits of both, on the chip that bit S of the second selects.
pub proof fn law_two_packets_set_the_envelope_frequency(
    received: Seq<u8>,
    low: int,
    high: int,
    low_c: u8,
    low_v: u8,
    high_c: u8,
    high_v: u8,
    answer: Result<Session, Error>,
)
    requires
        0 <= low < high,
        4 * high + 4 <= received.len(),
        low_c < 16 && low_v < 128,
        high_c < 16 && high_v < 128,
        received[4 * low + 1] == 0xB0 + low_c,
        received[4 * low + 2] == 49,
        received[4 * low + 3] == low_v,
        received[4 * high + 1] == 0xB0 + high_c,
        received[4 * high + 2] == 17,
        received[4 * high + 3] == high_v,
        forall|j: int|
            low < j < high ==> match crate::midi::message_of(
                #[trigger] received.subrange(4 * j, 4 * j + 4),
            ) {
                Some(MidiMessage::ControlChange(_, f, _)) => f != 17 && f != 49,
                Some(_) => true,
                None => false,
            },
        is_answer_to_packet(answer, received, high),
    ensures
        answer is Ok,
        answer->Ok_0.position() == 0,
        answer->Ok_0.calls().len() == 2,
        answer->Ok_0.calls()[0] == ChipCall::SelectChip(high_v >= 64),
        answer->Ok_0.calls()[1] is EnvelopeFrequency,
        answer->Ok_0.calls()[1]->EnvelopeFrequency_0 == (high_v as int % 2) * 32768 + high_c * 2048
            + low_v * 16 + low_c,
{
    let low_packet = received.subrange(4 * low, 4 * low + 4);
    let high_packet = received.subrange(4 * high, 4 * high + 4);
    crate::midi::law_status_byte_tells_the_message(low_packet, low_c, 49, low_v);
    crate::midi::law_status_byte_tells_the_message(high_packet, high_c, 17, high_v);
    law_buffer_is_carried_to_the_next_packet(received, low);
    law_buffer_stays_between_its_controls(received, low + 1, high);
    crate::interpreter::law_two_messages_set_the_envelope_frequency(
        low_c,
        low_v,
        high_c,
        high_v,
        buffer_before(received, low),
        buffer_before(received, high),
    );
}

/// The answer to a packet is the answer to the message in its four bytes, with
/// the buffer as the packets before it left it.
pub proof fn law_answers_are_to_their_packets(
    answer: Result<Session, Error>,
    received: Seq<u8>,
    i: int,
)
    requires
        is_answer_to_packet(answer, received, i),
    ensures
        crate::midi::message_of(received.subrange(4 * i, 4 * i + 4)) is Some,
        crate::interpreter::is_answer(
            answer,
            crate::midi::message_of(received.subrange(4 * i, 4 * i + 4))->0,
            buffer_before(received, i),
        ),
{
}

/// A packet can be processed exactly if it holds a message and is no note off,
/// note on, volume or mixer setting on the last MIDI channel.
pub proof fn law_packets_that_can_be_processed(packet: Seq<u8>)
    ensures
        is_processable(packet) <==> {
            &&& crate::midi::message_of(packet) is Some
            &&& packet[1] != 0x8F && packet[1] != 0x9F
            &&& packet[1] == 0xBF ==> packet[2] != 7 && packet[2] != 16
        },
{
}

/// What the buffer holds when a packet comes depends on the packets before it
/// alone.
pub proof fn law_buffer_depends_on_the_packets_before(one: Seq<u8>, other: Seq<u8>, i: int)
    requires
        0 <= i,
        4 * i <= one.len() && 4 * i <= other.len(),
        one.take(4 * i) == other.take(4 * i),
    ensures
        buffer_before(one, i) == buffer_before(other, i),
    decreases i,
{
    if i > 0 {
        assert(one.take(4 * i - 4) =~= one.take(4 * i).take(4 * i - 4));
        assert(other.take(4 * i - 4) =~= other.take(4 * i).take(4 * i - 4));
        law_buffer_depends_on_the_packets_before(one, other, i - 1);
        assert(crate::midi::packet_bytes(one, i - 1) =~= one.take(4 * i).subrange(4 * i - 4, 4 * i));
        assert(crate::midi::packet_bytes(other, i - 1) =~= other.take(4 * i).subrange(
            4 * i - 4,
            4 * i,
        ));
    }
}

} // verus!
