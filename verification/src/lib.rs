//! The decision logic of a USB MIDI synthesizer that drives two YM2149 sound
//! chips over one shared parallel bus.
//!
//! - [`midi`] splits a USB transfer into packets and tells what message a
//!   packet holds;
//! - [`interpreter`] decides which calls on the chip driver answer a message,
//!   [`session`] hands them out one by one, and [`transfer`] answers the packets
//!   of a whole transfer;
//! - [`answer_laws`] states what the answers come to, message by message;
//! - [`u20`] is the buffer in which two MIDI messages are joined into one
//!   setting of the envelope generator;
//! - [`bus`] works out the pin levels and hold times of one register write;
//! - [`chip`] holds the vocabulary of the chip driver;
//! - [`audio_channel`], [`delay`] and [`music_test`] hold the state of a sound
//!   channel, the splitting of long delays, and the rounds of the test tune.
//!
//! Nothing in this crate touches hardware: the functions take and give plain
//! values, and the firmware around them moves the pins and talks to USB.

pub mod answer_laws;
pub mod audio_channel;
pub mod bus;
pub mod chip;
pub mod delay;
pub mod interpreter;
pub mod midi;
pub mod music_test;
pub mod session;
pub mod transfer;
pub mod u20;
