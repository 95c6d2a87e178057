# dual_ym2149

The decision logic of a USB MIDI synthesizer that drives two YM2149 sound chips
over one shared bus, verified with Verus, and the firmware around it for an
RP2040.

- `src/` is the library. It turns received bytes into MIDI messages, messages
  into calls on the chip driver, and register writes into pin levels. It works
  on plain values only, and every function has a contract that Verus proves.
  The decoding of packets is taken from the `usbd-midi` crate; the two functions
  in `src/midi.rs` that call it state what is relied on.
- `app/` is the firmware: clocks, pins, USB, the chip driver, and the
  frequencies of notes, which are floating-point numbers. The chip driver,
  `ym2149_core`, is not published on crates.io, so `Cargo.toml` cannot name it
  by a version: a build of the firmware has to be given its source.
- `tests/` runs the library on concrete values.

## MIDI messages

| Message | Answer |
| --- | --- |
| Note on, note off | tone and level of the channel |
| Control 6 | chip select and noise frequency, `SxNNNNN` |
| Control 7 | level of the channel |
| Control 16 | I/O port and mixer settings |
| Control 49 | lower half of an envelope setting, `RRRFFFF` and `FFFF` in the channel |
| Control 17 | higher half, `SxCTLHR` and `RRRR` in the channel; sets the envelope frequency |
| Program 1 to 5, 6 to 10 | envelope waveform, upright and inverted |

S selects the chip, x is unused, N is the noise frequency, C, T, L and H are the
shape bits of the envelope, R and F its rough and fine frequency adjustment.

The MIDI channels 1 to 3 are the channels A to C of the first chip, 4 and 5 the
channels A and B of the second.
