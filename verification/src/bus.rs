//! Register writes on the bus that the two chips share.
//!
//! A pin word gives the levels of the GPIO pins by their numbers: the eight
//! lines of the data bus are pins 2 to 9, the two control lines of the first
//! chip pins 14 (BC1) and 15 (BDIR), and those of the second chip pins 16 and
//! 17. With both control lines high a chip takes the bus as a register address,
//! with BDIR alone as data, and with none it ignores the bus.

use vstd::prelude::*;

verus! {

/// BDIR and BC1 of the first chip high.
pub const ADDRESS_MODE: u32 = 0xC000;

/// BDIR of the first chip high, BC1 low.
pub const WRITE_MODE: u32 = 0x8000;

/// How long the bus is left alone after an address and after a write, in
/// nanoseconds.
pub const IDLE_NS: u32 = 500;

/// A value for a register, by the register's address.
#[derive(Clone, Copy, Debug, PartialEq, Eq, Structural)]
pub struct Command {
    pub register: u8,
    pub value: u8,
}

/// Levels for the pins, and for how many nanoseconds to leave them there.
#[derive(Clone, Copy, Debug, PartialEq, Eq, Structural)]
pub struct BusStep {
    pub pins: u32,
    pub hold_ns: u32,
}

/// The hold times of a register write, in nanoseconds.
#[derive(Clone, Copy, Debug, PartialEq, Eq, Structural)]
pub struct HoldTimes {
    pub address_hold: u32,
    pub address_setup: u32,
    pub data_setup: u32,
    pub data_write: u32,
    pub data_hold: u32,
}

impl HoldTimes {
    /// What the chip asks for: an address held for more than 80 ns and set up for
    /// more than 300 ns, data set up for some time, written for 300 ns to 10 us,
    /// and held for more than 80 ns.
    pub open spec fn meet_limits(self) -> bool {
        &&& self.address_hold > 80
        &&& self.address_setup > 300
        &&& self.data_setup > 0
        &&& 300 <= self.data_write <= 10_000
        &&& self.data_hold > 80
    }
}

/// How much time the chips are given.
#[derive(Clone, Copy, Debug, PartialEq, Eq, Structural)]
pub enum BusTiming {
    /// Just above the limits of the chip.
    Synthesizer,
    /// The more generous times of the music test.
    MusicTest,
}

impl BusTiming {
    /// The hold times of a register write.
    pub open spec fn times(self) -> HoldTimes {
        match self {
            BusTiming::Synthesizer => HoldTimes {
                address_hold: 81,
                address_setup: 301,
                data_setup: 2,
                data_write: 300,
                data_hold: 81,
            },
            BusTiming::MusicTest => HoldTimes {
                address_hold: 100,
                address_setup: 350,
                data_setup: 5,
                data_write: 400,
                data_hold: 100,
            },
        }
    }

    /// The hold times of a register write.
    pub fn hold_times(&self) -> (times: HoldTimes)
        ensures
            times == self.times(),
            times.meet_limits(),
    {
        match self {
            BusTiming::Synthesizer => HoldTimes {
                address_hold: 81,
                address_setup: 301,
                data_setup: 2,
                data_write: 300,
                data_hold: 81,
            },
            BusTiming::MusicTest => HoldTimes {
                address_hold: 100,
                address_setup: 350,
                data_setup: 5,
                data_write: 400,
                data_hold: 100,
            },
        }
    }
}

/// The pin word with `byte` on the data bus and the control lines of one chip
/// as `mode` has them for the first.
pub open spec fn pin_word(mode: u32, second: bool, byte: u8) -> int {
    mode * (if second {
        4int
    } else {
        1int
    }) + byte * 4
}

/// What is on the data bus: pins 2 to 9.
pub open spec fn data_lines(pins: u32) -> int {
    pins as int / 4 % 0x100
}

/// The control lines of one chip as a number: BC1 counts one and BDIR two.
pub open spec fn control_lines(pins: u32, second: bool) -> int {
    if second {
        pins as int / 0x1_0000 % 4
    } else {
        pins as int / 0x4000 % 4
    }
}

/// Drives the bus for the chip that is selected.
#[derive(Clone, Copy, Debug, PartialEq, Eq, Structural)]
pub struct DataBusController {
    /// Commands go to the second chip.
    pub b_active: bool,
    pub timing: BusTiming,
}

impl DataBusController {
    /// A controller with the first chip selected.
    pub fn new(timing: BusTiming) -> (controller: DataBusController)
        ensures
            controller == (DataBusController { b_active: false, timing }),
    {
        DataBusController { b_active: false, timing }
    }

    /// The pin words of [`DataBusController::execute`].
    pub open spec fn words(self, command: Command) -> Seq<int> {
        seq![
            pin_word(ADDRESS_MODE, self.b_active, 0),
            pin_word(ADDRESS_MODE, self.b_active, command.register),
            pin_word(0, self.b_active, command.register),
            0,
            pin_word(0, self.b_active, command.value),
            pin_word(WRITE_MODE, self.b_active, command.value),
            pin_word(0, self.b_active, command.value),
            0,
        ]
    }

    /// The hold times of [`DataBusController::execute`].
    pub open spec fn holds(self) -> Seq<u32> {
        seq![
            self.timing.times().address_hold,
            self.timing.times().address_setup,
            self.timing.times().address_hold,
            IDLE_NS,
            self.timing.times().data_setup,
            self.timing.times().data_write,
            self.timing.times().data_hold,
            IDLE_NS,
        ]
    }

    /// The pin levels that write a register of the selected chip: the address is
    /// put on the bus in address mode and the bus goes idle, then the value is
    /// put on it in write mode and the bus goes idle again.
    pub fn execute(&self, command: Command) -> (steps: Vec<BusStep>)
        ensures
            steps@.len() == 8,
            forall|i: int|
                0 <= i < 8 ==> {
                    &&& (#[trigger] steps@[i]).pins == self.words(command)[i]
                    &&& steps@[i].hold_ns == self.holds()[i]
                },
    {
        let mode_shift: u8 = (self.b_active as u8) * 2;
        proof {
            assert(0xC000u32 << 0u8 == 0xC000 && 0xC000u32 << 2u8 == 0x30000) by (bit_vector);
            assert(0x8000u32 << 0u8 == 0x8000 && 0x8000u32 << 2u8 == 0x20000) by (bit_vector);
        }
        let address_mode: u32 = ADDRESS_MODE << mode_shift;
        let write_mode: u32 = WRITE_MODE << mode_shift;
        let register: u32 = command.register as u32;
        let value: u32 = command.value as u32;
        assert(register << 2 == register * 4) by (bit_vector)
            requires
                register < 0x100,
        ;
        assert(value << 2 == value * 4) by (bit_vector)
            requires
                value < 0x100,
        ;
        let address: u32 = register << 2;
        let data: u32 = value << 2;
        let t: HoldTimes = self.timing.hold_times();
        let mut steps: Vec<BusStep> = Vec::new();
        steps.push(BusStep { pins: address_mode, hold_ns: t.address_hold });
        steps.push(BusStep { pins: address_mode + address, hold_ns: t.address_setup });
        steps.push(BusStep { pins: address, hold_ns: t.address_hold });
        steps.push(BusStep { pins: 0, hold_ns: IDLE_NS });
        steps.push(BusStep { pins: data, hold_ns: t.data_setup });
        steps.push(BusStep { pins: write_mode + data, hold_ns: t.data_write });
        steps.push(BusStep { pins: data, hold_ns: t.data_hold });
        steps.push(BusStep { pins: 0, hold_ns: IDLE_NS });
        steps
    }
}

/// Only the data bus and the control lines of the selected chip are ever driven
/// high: the chip that is not selected ignores every step.
pub proof fn law_other_chip_is_left_alone(
    controller: DataBusController,
    command: Command,
    pins: u32,
    i: int,
)
    requires
        0 <= i < 8,
        pins == controller.words(command)[i],
    ensures
        control_lines(pins, !controller.b_active) == 0,
        pins as int == data_lines(pins) * 4 + control_lines(pins, controller.b_active) * (
        if controller.b_active {
            0x1_0000int
        } else {
            0x4000int
        }),
{
}

/// While the selected chip takes an address, the bus carries the register, but
/// for the lead-in on an empty bus; while it takes data, the bus carries the
/// value. It takes the address before the data.
pub proof fn law_chip_is_given_register_then_value(
    controller: DataBusController,
    command: Command,
    pins: u32,
    i: int,
)
    requires
        0 <= i < 8,
        pins == controller.words(command)[i],
    ensures
        control_lines(pins, controller.b_active) == (if i < 2 {
            3int
        } else if i == 5 {
            2int
        } else {
            0int
        }),
        i == 1 ==> data_lines(pins) == command.register,
        i == 5 ==> data_lines(pins) == command.value,
{
}

/// The register stays on the bus after the address has been taken, and the value
/// is there before and after the data is taken.
pub proof fn law_bus_is_steady_around_each_strobe(controller: DataBusController, command: Command)
    ensures
        controller.words(command)[2] == command.register * 4,
        controller.words(command)[4] == command.value * 4,
        controller.words(command)[6] == command.value * 4,
{
}

/// The bus is idle between address and data, and when the write is done.
pub proof fn law_bus_rests_after_each_half(controller: DataBusController, command: Command)
    ensures
        controller.words(command)[3] == 0,
        controller.words(command)[7] == 0,
        controller.holds()[3] == IDLE_NS && controller.holds()[7] == IDLE_NS,
{
}

/// With either timing, each step of a register write is held for as long as the
/// chip asks: the address in address mode, the address after it, the data before
/// the write, the write itself, and the data after it.
pub proof fn law_hold_times_meet_the_limits(controller: DataBusController)
    ensures
        controller.timing.times().meet_limits(),
        controller.holds()[1] > 300,
        controller.holds()[2] > 80,
        controller.holds()[4] > 0,
        300 <= controller.holds()[5] <= 10_000,
        controller.holds()[6] > 80,
{
}

/// Step by step, the data bus carries nothing, the register twice, nothing, the
/// value three times, and nothing. The selected chip has BDIR and BC1 high in the
/// first two steps and BDIR alone in the sixth. No other pin is ever high.
pub proof fn law_every_pin_has_its_level(
    controller: DataBusController,
    command: Command,
    pins: u32,
    i: int,
)
    requires
        0 <= i < 8,
        pins == controller.words(command)[i],
    ensures
        i == 0 || i == 3 || i == 7 ==> pins >> 2 & 0xFF == 0,
        i == 1 || i == 2 ==> pins >> 2 & 0xFF == command.register,
        4 <= i <= 6 ==> pins >> 2 & 0xFF == command.value,
        pins & 0x8000 != 0 <==> !controller.b_active && (i < 2 || i == 5),
        pins & 0x4000 != 0 <==> !controller.b_active && i < 2,
        pins & 0x2_0000 != 0 <==> controller.b_active && (i < 2 || i == 5),
        pins & 0x1_0000 != 0 <==> controller.b_active && i < 2,
        pins & 0xFFFC_3C03 == 0,
{
    let byte: u32 = (if i == 0 || i == 3 || i == 7 {
        0
    } else if i < 3 {
        command.register
    } else {
        command.value
    }) as u32;
    let mode: u32 = if i < 2 {
        0xC000
    } else if i == 5 {
        0x8000
    } else {
        0
    };
    let second = controller.b_active;
    assert(pins >> 2 & 0xFF == byte && (pins & 0x8000 != 0 <==> !second && mode >= 0x8000) && (pins
        & 0x4000 != 0 <==> !second && mode == 0xC000) && (pins & 0x2_0000 != 0 <==> second && mode
        >= 0x8000) && (pins & 0x1_0000 != 0 <==> second && mode == 0xC000) && pins & 0xFFFC_3C03
        == 0) by (bit_vector)
        requires
            byte < 0x100,
            mode == 0 || mode == 0x8000 || mode == 0xC000,
            second ==> pins == mode * 4 + byte * 4,
            !second ==> pins == mode + byte * 4,
    ;
}

/// The synthesizer holds no step longer than the music test, and both leave the
/// bus alone for half a microsecond after the address and after the data. An
/// address is led in for as long as it is held afterwards.
pub proof fn law_synthesizer_is_the_faster(b_active: bool, i: int)
    requires
        0 <= i < 8,
    ensures
        ({
            let fast = (DataBusController { b_active, timing: BusTiming::Synthesizer }).holds();
            let slow = (DataBusController { b_active, timing: BusTiming::MusicTest }).holds();
            &&& i == 3 || i == 7 ==> fast[i] == 500 && slow[i] == 500
            &&& i != 3 && i != 7 ==> fast[i] < slow[i]
            &&& fast[0] == fast[2] && slow[0] == slow[2]
            &&& (fast[0], fast[1], fast[4], fast[5], fast[6]) == (81u32, 301u32, 2u32, 300u32, 81u32)
            &&& (slow[0], slow[1], slow[4], slow[5], slow[6]) == (
                100u32,
                350u32,
                5u32,
                400u32,
                100u32,
            )
        }),
{
}

} // verus!
