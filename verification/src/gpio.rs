//! GPIO lines, named by what the board wires them to.
use vstd::prelude::*;
use crate::peripheral::{Peripheral, PeripheralId};

verus! {

/// Electrical level of a digital line.
#[derive(Clone, Copy, Debug, PartialEq, Eq, Structural)]
pub enum Level {
    Low,
    High,
}

/// How a line is configured.
#[derive(Clone, Copy, Debug, PartialEq, Eq, Structural)]
pub enum PinMode {
    /// Not driven and not read.
    Disconnected,
    /// Input without pull resistor.
    FloatingInput,
    /// Push-pull output; the level is the one it was given when configured.
    PushPullOutput(Level),
}

/// A line of port 0 whose number is no longer part of its type.
#[derive(Debug, PartialEq, Eq, Structural)]
pub struct Pin {
    pub number: u8,
    pub mode: PinMode,
}

/// Line `N` of port 0. The number is fixed by the type, the mode is a value.
#[derive(Debug)]
pub struct PortPin<const N: u8> {
    mode: PinMode,
}

impl<const N: u8> PortPin<N> {
    /// The mode the line is in.
    pub closed spec fn view(&self) -> PinMode {
        self.mode
    }

    /// A line that has not been configured yet.
    pub fn disconnected() -> (pin: Self)
        ensures
            pin@ == PinMode::Disconnected,
    {
        PortPin { mode: PinMode::Disconnected }
    }

    /// Turns the line into a push-pull output that starts at `initial_output`.
    pub fn into_push_pull_output(self, initial_output: Level) -> (pin: Self)
        ensures
            pin@ == PinMode::PushPullOutput(initial_output),
    {
        PortPin { mode: PinMode::PushPullOutput(initial_output) }
    }

    /// Turns the line into an input without pull resistor.
    pub fn into_floating_input(self) -> (pin: Self)
        ensures
            pin@ == PinMode::FloatingInput,
    {
        PortPin { mode: PinMode::FloatingInput }
    }

    /// Forgets the number in the type and keeps it as a value.
    pub fn degrade(self) -> (pin: Pin)
        ensures
            pin.number == N,
            pin.mode == self@,
    {
        Pin { number: N, mode: self.mode }
    }

    /// The mode the line is in.
    pub fn mode(&self) -> (mode: PinMode)
        ensures
            mode == self@,
    {
        self.mode
    }
}

/* GPIO pads */
pub type PAD0 = PortPin<0>;

pub type PAD1 = PortPin<1>;

pub type PAD2 = PortPin<2>;

pub type PAD3 = PortPin<22>;

/* LED display */
pub const NUM_COLS: usize = 9;

pub type COL1 = PortPin<4>;

pub type COL2 = PortPin<5>;

pub type COL3 = PortPin<6>;

pub type COL4 = PortPin<7>;

pub type COL5 = PortPin<8>;

pub type COL6 = PortPin<9>;

pub type COL7 = PortPin<10>;

pub type COL8 = PortPin<11>;

pub type COL9 = PortPin<12>;

pub const NUM_ROWS: usize = 3;

pub type ROW1 = PortPin<13>;

pub type ROW2 = PortPin<14>;

pub type ROW3 = PortPin<15>;

/* buttons */
pub type BTN_A = PortPin<17>;

pub type BTN_B = PortPin<16>;

/* rgb led */
pub type RGB_LED = PortPin<18>;

/* motor */
pub type MOTOR_NSLEEP = PortPin<28>;

pub type MOTOR_IN1 = PortPin<29>;

pub type MOTOR_IN2 = PortPin<30>;

/* mic */
pub type MIC = PortPin<3>;

/* spi */
pub type MOSI = PortPin<9>;

pub type MISO = PortPin<8>;

pub type SCK = PortPin<7>;

/* i2c - shared external and internal */
pub type SCL = PortPin<19>;

pub type SDA = PortPin<20>;

/* uart */
pub type UART_TX = PortPin<24>;

pub type UART_RX = PortPin<25>;

/* accelerometer interrupt pin */
pub type ACCEL_INT = PortPin<21>;

/* edge connector */
pub type EDGE00 = PAD0;

pub type EDGE01 = PAD1;

pub type EDGE02 = PAD2;

pub type EDGE03 = PAD3;

pub type EDGE04 = COL1;

pub type EDGE05 = COL2;

pub type EDGE06 = COL3;

pub type EDGE07 = COL4;

pub type EDGE08 = COL5;

pub type EDGE09 = COL6;

pub type EDGE10 = COL7;

pub type EDGE11 = COL8;

pub type EDGE12 = COL9;

pub type EDGE13 = ROW1;

pub type EDGE14 = ROW2;

pub type EDGE15 = ROW3;

pub type EDGE16 = PortPin<26>;

pub type EDGE17 = PortPin<27>;

pub type EDGE18 = SDA;

pub type EDGE19 = SCL;

/// The lines of port 0, each under its number.
#[derive(Debug)]
pub struct Parts {
    pub p0_00: PortPin<0>,
    pub p0_01: PortPin<1>,
    pub p0_02: PortPin<2>,
    pub p0_03: PortPin<3>,
    pub p0_04: PortPin<4>,
    pub p0_05: PortPin<5>,
    pub p0_06: PortPin<6>,
    pub p0_07: PortPin<7>,
    pub p0_08: PortPin<8>,
    pub p0_09: PortPin<9>,
    pub p0_10: PortPin<10>,
    pub p0_11: PortPin<11>,
    pub p0_12: PortPin<12>,
    pub p0_13: PortPin<13>,
    pub p0_14: PortPin<14>,
    pub p0_15: PortPin<15>,
    pub p0_16: PortPin<16>,
    pub p0_17: PortPin<17>,
    pub p0_18: PortPin<18>,
    pub p0_19: PortPin<19>,
    pub p0_20: PortPin<20>,
    pub p0_21: PortPin<21>,
    pub p0_22: PortPin<22>,
    pub p0_23: PortPin<23>,
    pub p0_24: PortPin<24>,
    pub p0_25: PortPin<25>,
    pub p0_26: PortPin<26>,
    pub p0_27: PortPin<27>,
    pub p0_28: PortPin<28>,
    pub p0_29: PortPin<29>,
    pub p0_30: PortPin<30>,
}

impl Parts {
    /// No line has been configured.
    pub open spec fn all_disconnected(&self) -> bool {
        &&& self.p0_00@ == PinMode::Disconnected
        &&& self.p0_01@ == PinMode::Disconnected
        &&& self.p0_02@ == PinMode::Disconnected
        &&& self.p0_03@ == PinMode::Disconnected
        &&& self.p0_04@ == PinMode::Disconnected
        &&& self.p0_05@ == PinMode::Disconnected
        &&& self.p0_06@ == PinMode::Disconnected
        &&& self.p0_07@ == PinMode::Disconnected
        &&& self.p0_08@ == PinMode::Disconnected
        &&& self.p0_09@ == PinMode::Disconnected
        &&& self.p0_10@ == PinMode::Disconnected
        &&& self.p0_11@ == PinMode::Disconnected
        &&& self.p0_12@ == PinMode::Disconnected
        &&& self.p0_13@ == PinMode::Disconnected
        &&& self.p0_14@ == PinMode::Disconnected
        &&& self.p0_15@ == PinMode::Disconnected
        &&& self.p0_16@ == PinMode::Disconnected
        &&& self.p0_17@ == PinMode::Disconnected
        &&& self.p0_18@ == PinMode::Disconnected
        &&& self.p0_19@ == PinMode::Disconnected
        &&& self.p0_20@ == PinMode::Disconnected
        &&& self.p0_21@ == PinMode::Disconnected
        &&& self.p0_22@ == PinMode::Disconnected
        &&& self.p0_23@ == PinMode::Disconnected
        &&& self.p0_24@ == PinMode::Disconnected
        &&& self.p0_25@ == PinMode::Disconnected
        &&& self.p0_26@ == PinMode::Disconnected
        &&& self.p0_27@ == PinMode::Disconnected
        &&& self.p0_28@ == PinMode::Disconnected
        &&& self.p0_29@ == PinMode::Disconnected
        &&& self.p0_30@ == PinMode::Disconnected
    }

    /// Splits the GPIO port into its lines, all of them disconnected.
    pub fn new(gpio: Peripheral) -> (parts: Self)
        requires
            gpio@ == PeripheralId::GPIO,
        ensures
            parts.all_disconnected(),
    {
        Parts {
            p0_00: PortPin::disconnected(),
            p0_01: PortPin::disconnected(),
            p0_02: PortPin::disconnected(),
            p0_03: PortPin::disconnected(),
            p0_04: PortPin::disconnected(),
            p0_05: PortPin::disconnected(),
            p0_06: PortPin::disconnected(),
            p0_07: PortPin::disconnected(),
            p0_08: PortPin::disconnected(),
            p0_09: PortPin::disconnected(),
            p0_10: PortPin::disconnected(),
            p0_11: PortPin::disconnected(),
            p0_12: PortPin::disconnected(),
            p0_13: PortPin::disconnected(),
            p0_14: PortPin::disconnected(),
            p0_15: PortPin::disconnected(),
            p0_16: PortPin::disconnected(),
            p0_17: PortPin::disconnected(),
            p0_18: PortPin::disconnected(),
            p0_19: PortPin::disconnected(),
            p0_20: PortPin::disconnected(),
            p0_21: PortPin::disconnected(),
            p0_22: PortPin::disconnected(),
            p0_23: PortPin::disconnected(),
            p0_24: PortPin::disconnected(),
            p0_25: PortPin::disconnected(),
            p0_26: PortPin::disconnected(),
            p0_27: PortPin::disconnected(),
            p0_28: PortPin::disconnected(),
            p0_29: PortPin::disconnected(),
            p0_30: PortPin::disconnected(),
        }
    }
}

/// GPIO pins connected to the LED matrix
///
/// The pins are represented as a 3x9 matrix; the display driver maps it to
/// the physical 5x5 LED matrix.
#[derive(Debug)]
pub struct DisplayPins {
    pub col1: COL1,
    pub col2: COL2,
    pub col3: COL3,
    pub col4: COL4,
    pub col5: COL5,
    pub col6: COL6,
    pub col7: COL7,
    pub col8: COL8,
    pub col9: COL9,
    pub row1: ROW1,
    pub row2: ROW2,
    pub row3: ROW3,
}

/// GPIO pins connected to the beeper / motor driver
#[derive(Debug)]
pub struct BeeperMotorPins {
    pub motor_nsleep: MOTOR_NSLEEP,
    pub motor_in1: MOTOR_IN1,
    pub motor_in2: MOTOR_IN2,
}

/// GPIO pins connected to the microphone
#[derive(Debug)]
pub struct MicrophonePins {
    pub mic_in: MIC,
}

impl DisplayPins {
    /// Every row is an output at `rows`, every column an output at `cols`.
    pub open spec fn driven(&self, rows: Level, cols: Level) -> bool {
        &&& self.row1@ == PinMode::PushPullOutput(rows)
        &&& self.row2@ == PinMode::PushPullOutput(rows)
        &&& self.row3@ == PinMode::PushPullOutput(rows)
        &&& self.col1@ == PinMode::PushPullOutput(cols)
        &&& self.col2@ == PinMode::PushPullOutput(cols)
        &&& self.col3@ == PinMode::PushPullOutput(cols)
        &&& self.col4@ == PinMode::PushPullOutput(cols)
        &&& self.col5@ == PinMode::PushPullOutput(cols)
        &&& self.col6@ == PinMode::PushPullOutput(cols)
        &&& self.col7@ == PinMode::PushPullOutput(cols)
        &&& self.col8@ == PinMode::PushPullOutput(cols)
        &&& self.col9@ == PinMode::PushPullOutput(cols)
    }

    /// The column lines by number, first to ninth, each in its mode.
    pub open spec fn columns(&self) -> Seq<Pin> {
        seq![
            Pin { number: 4, mode: self.col1@ },
            Pin { number: 5, mode: self.col2@ },
            Pin { number: 6, mode: self.col3@ },
            Pin { number: 7, mode: self.col4@ },
            Pin { number: 8, mode: self.col5@ },
            Pin { number: 9, mode: self.col6@ },
            Pin { number: 10, mode: self.col7@ },
            Pin { number: 11, mode: self.col8@ },
            Pin { number: 12, mode: self.col9@ },
        ]
    }

    /// The row lines by number, first to third, each in its mode.
    pub open spec fn rows(&self) -> Seq<Pin> {
        seq![
            Pin { number: 13, mode: self.row1@ },
            Pin { number: 14, mode: self.row2@ },
            Pin { number: 15, mode: self.row3@ },
        ]
    }

    /// Gives the display's lines as two arrays of untyped pins: the nine
    /// columns in order, then the three rows in order.
    pub fn degrade(self) -> (pins: ([Pin; NUM_COLS], [Pin; NUM_ROWS]))
        ensures
            pins.0@ == self.columns(),
            pins.1@ == self.rows(),
    {
        let columns = [
            self.col1.degrade(),
            self.col2.degrade(),
            self.col3.degrade(),
            self.col4.degrade(),
            self.col5.degrade(),
            self.col6.degrade(),
            self.col7.degrade(),
            self.col8.degrade(),
            self.col9.degrade(),
        ];
        let rows = [self.row1.degrade(), self.row2.degrade(), self.row3.degrade()];
        proof {
            assert(columns@ =~= self.columns());
            assert(rows@ =~= self.rows());
        }
        (columns, rows)
    }
}

/// Takes the display's twelve lines out of the port and makes each of them an
/// output at low level.
pub fn display_pins(p0parts: Parts) -> (pins: DisplayPins)
    ensures
        pins.driven(Level::Low, Level::Low),
{
    DisplayPins {
        row1: p0parts.p0_13.into_push_pull_output(Level::Low),
        row2: p0parts.p0_14.into_push_pull_output(Level::Low),
        row3: p0parts.p0_15.into_push_pull_output(Level::Low),
        col1: p0parts.p0_04.into_push_pull_output(Level::Low),
        col2: p0parts.p0_05.into_push_pull_output(Level::Low),
        col3: p0parts.p0_06.into_push_pull_output(Level::Low),
        col4: p0parts.p0_07.into_push_pull_output(Level::Low),
        col5: p0parts.p0_08.into_push_pull_output(Level::Low),
        col6: p0parts.p0_09.into_push_pull_output(Level::Low),
        col7: p0parts.p0_10.into_push_pull_output(Level::Low),
        col8: p0parts.p0_11.into_push_pull_output(Level::Low),
        col9: p0parts.p0_12.into_push_pull_output(Level::Low),
    }
}

} // verus!
