//! The board: every line under the name of what it is wired to, and every
//! peripheral the chip has to give.
use vstd::prelude::*;
use vstd::std_specs::convert::FromSpecImpl;
use crate::gpio::{
    BeeperMotorPins, DisplayPins, Level, MicrophonePins, Parts, Pin, PinMode, PortPin, BTN_A,
    BTN_B, EDGE00, EDGE01, EDGE02, EDGE03, EDGE16, EDGE17, RGB_LED, SCL, SDA, UART_RX, UART_TX,
};
use crate::peripheral::{Chip, CorePeripherals, Peripheral, PeripheralId, Peripherals};

verus! {

/// Provides access to the microbit
#[derive(Debug)]
pub struct Board {
    /// GPIO pins that are not otherwise used
    pub pins: Pins,
    /// Unused GPIO pins on edge connector
    pub edge: Edge,
    /// display pins
    pub display_pins: DisplayPins,
    /// buttons
    pub buttons: Buttons,
    /// beeper / motor pins
    pub beeper_motor_pins: BeeperMotorPins,
    /// microphone pins
    pub microphone_pins: MicrophonePins,
    /// rgb led pin
    pub rgb_led_pin: RGB_LED,
    /// I2C shared internal and external bus pins
    pub i2c: I2CPins,
    /// UART to debugger pins
    pub uart: UartPins,
    /// Core peripheral: Cache and branch predictor maintenance operations
    pub CBP: Peripheral,
    /// Core peripheral: CPUID
    pub CPUID: Peripheral,
    /// Core peripheral: Debug Control Block
    pub DCB: Peripheral,
    /// Core peripheral: Data Watchpoint and Trace unit
    pub DWT: Peripheral,
    /// Core peripheral: Flash Patch and Breakpoint unit
    pub FPB: Peripheral,
    /// Core peripheral: Instrumentation Trace Macrocell
    pub ITM: Peripheral,
    /// Core peripheral: Memory Protection Unit
    pub MPU: Peripheral,
    /// Core peripheral: Nested Vector Interrupt Controller
    pub NVIC: Peripheral,
    /// Core peripheral: System Control Block
    pub SCB: Peripheral,
    /// Core peripheral: SysTick Timer
    pub SYST: Peripheral,
    /// Core peripheral: Trace Port Interface Unit
    pub TPIU: Peripheral,
    /// nRF51 peripheral: ADC
    pub ADC: Peripheral,
    /// nRF51 peripheral: CLOCK
    pub CLOCK: Peripheral,
    /// nRF51 peripheral: FICR
    pub FICR: Peripheral,
    /// nRF51 peripheral: GPIOTE
    pub GPIOTE: Peripheral,
    /// nRF51 peripheral: PPI
    pub PPI: Peripheral,
    /// nRF51 peripheral: RADIO
    pub RADIO: Peripheral,
    /// nRF51 peripheral: RNG
    pub RNG: Peripheral,
    /// nRF51 peripheral: RTC0
    pub RTC0: Peripheral,
    /// nRF51 peripheral: TEMP
    pub TEMP: Peripheral,
    /// nRF51 peripheral: TIMER0
    pub TIMER0: Peripheral,
    /// nRF51 peripheral: TIMER1
    pub TIMER1: Peripheral,
    /// nRF51 peripheral: TIMER2
    pub TIMER2: Peripheral,
    /// nRF51 peripheral: TWI0
    pub TWI0: Peripheral,
    /// nrf51 peripheral: UART0
    pub UART0: Peripheral,
}

/// Unused GPIO pins
#[derive(Debug)]
pub struct Pins {
    pub p0_23: PortPin<23>,
}

/// Unused edge connector pins
#[derive(Debug)]
pub struct Edge {
    /// Big pad 0.
    pub e00: EDGE00,
    /// Big pad 1.
    pub e01: EDGE01,
    /// Big pad 2.
    pub e02: EDGE02,
    /// Big pad 3.
    pub e03: EDGE03,
    pub e16: EDGE16,
    pub e17: EDGE17,
}

/// Board buttons
#[derive(Debug)]
pub struct Buttons {
    /// Left hand side button
    pub button_a: BTN_A,
    /// Right hand side button
    pub button_b: BTN_B,
}

/// I2C shared internal and external bus pins
#[derive(Debug)]
pub struct I2CPins {
    scl: SCL,
    sda: SDA,
}

/// UART to debugger pins
#[derive(Debug)]
pub struct UartPins {
    tx: UART_TX,
    rx: UART_RX,
}

impl I2CPins {
    /// Mode of the clock line.
    pub closed spec fn scl(&self) -> PinMode {
        self.scl@
    }

    /// Mode of the data line.
    pub closed spec fn sda(&self) -> PinMode {
        self.sda@
    }

    /// Mode of the clock line.
    pub fn scl_mode(&self) -> (mode: PinMode)
        ensures
            mode == self.scl(),
    {
        self.scl.mode()
    }

    /// Mode of the data line.
    pub fn sda_mode(&self) -> (mode: PinMode)
        ensures
            mode == self.sda(),
    {
        self.sda.mode()
    }
}

impl UartPins {
    /// Mode of the transmit line.
    pub closed spec fn tx(&self) -> PinMode {
        self.tx@
    }

    /// Mode of the receive line.
    pub closed spec fn rx(&self) -> PinMode {
        self.rx@
    }

    /// Mode of the transmit line.
    pub fn tx_mode(&self) -> (mode: PinMode)
        ensures
            mode == self.tx(),
    {
        self.tx.mode()
    }

    /// Mode of the receive line.
    pub fn rx_mode(&self) -> (mode: PinMode)
        ensures
            mode == self.rx(),
    {
        self.rx.mode()
    }
}

impl From<I2CPins> for crate::twi::Pins {
    /// The bus lines as untyped pins: clock on line 19, data on line 20.
    fn from(pins: I2CPins) -> (ret: Self) {
        Self { scl: pins.scl.degrade(), sda: pins.sda.degrade() }
    }
}

impl FromSpecImpl<I2CPins> for crate::twi::Pins {
    open spec fn obeys_from_spec() -> bool {
        true
    }

    open spec fn from_spec(pins: I2CPins) -> Self {
        crate::twi::Pins {
            scl: Pin { number: 19, mode: pins.scl() },
            sda: Pin { number: 20, mode: pins.sda() },
        }
    }
}

impl From<UartPins> for crate::uart::Pins {
    /// The port's lines as untyped pins: receive on line 25, transmit on line
    /// 24, no flow control.
    fn from(pins: UartPins) -> (ret: Self) {
        Self { rxd: pins.rx.degrade(), txd: pins.tx.degrade(), cts: None, rts: None }
    }
}

impl FromSpecImpl<UartPins> for crate::uart::Pins {
    open spec fn obeys_from_spec() -> bool {
        true
    }

    open spec fn from_spec(pins: UartPins) -> Self {
        crate::uart::Pins {
            rxd: Pin { number: 25, mode: pins.rx() },
            txd: Pin { number: 24, mode: pins.tx() },
            cts: None,
            rts: None,
        }
    }
}

impl Board {
    /// Every line is in the mode the board's wiring asks for: display rows
    /// low and columns high, so that no LED is lit; the motor driver asleep
    /// with both inputs low; the RGB LED's line and the serial transmit line
    /// low; buttons, microphone, bus and serial receive lines floating
    /// inputs; the free lines untouched.
    pub open spec fn pins_configured(&self) -> bool {
        &&& self.pins.p0_23@ == PinMode::Disconnected
        &&& self.edge.e00@ == PinMode::Disconnected
        &&& self.edge.e01@ == PinMode::Disconnected
        &&& self.edge.e02@ == PinMode::Disconnected
        &&& self.edge.e03@ == PinMode::Disconnected
        &&& self.edge.e16@ == PinMode::Disconnected
        &&& self.edge.e17@ == PinMode::Disconnected
        &&& self.display_pins.driven(Level::Low, Level::High)
        &&& self.buttons.button_a@ == PinMode::FloatingInput
        &&& self.buttons.button_b@ == PinMode::FloatingInput
        &&& self.beeper_motor_pins.motor_nsleep@ == PinMode::PushPullOutput(Level::Low)
        &&& self.beeper_motor_pins.motor_in1@ == PinMode::PushPullOutput(Level::Low)
        &&& self.beeper_motor_pins.motor_in2@ == PinMode::PushPullOutput(Level::Low)
        &&& self.microphone_pins.mic_in@ == PinMode::FloatingInput
        &&& self.rgb_led_pin@ == PinMode::PushPullOutput(Level::Low)
        &&& self.i2c.scl() == PinMode::FloatingInput
        &&& self.i2c.sda() == PinMode::FloatingInput
        &&& self.uart.tx() == PinMode::PushPullOutput(Level::Low)
        &&& self.uart.rx() == PinMode::FloatingInput
    }

    /// The board holds exactly the handles that were given, each under its
    /// name, but for the GPIO port, which went into the lines.
    pub open spec fn holds(&self, p: Peripherals, cp: CorePeripherals) -> bool {
        &&& self.CBP == cp.CBP
        &&& self.CPUID == cp.CPUID
        &&& self.DCB == cp.DCB
        &&& self.DWT == cp.DWT
        &&& self.FPB == cp.FPB
        &&& self.ITM == cp.ITM
        &&& self.MPU == cp.MPU
        &&& self.NVIC == cp.NVIC
        &&& self.SCB == cp.SCB
        &&& self.SYST == cp.SYST
        &&& self.TPIU == cp.TPIU
        &&& self.ADC == p.ADC
        &&& self.CLOCK == p.CLOCK
        &&& self.FICR == p.FICR
        &&& self.GPIOTE == p.GPIOTE
        &&& self.PPI == p.PPI
        &&& self.RADIO == p.RADIO
        &&& self.RNG == p.RNG
        &&& self.RTC0 == p.RTC0
        &&& self.TEMP == p.TEMP
        &&& self.TIMER0 == p.TIMER0
        &&& self.TIMER1 == p.TIMER1
        &&& self.TIMER2 == p.TIMER2
        &&& self.TWI0 == p.TWI0
        &&& self.UART0 == p.UART0
    }

    /// Every handle is that of the peripheral its field is named after.
    pub open spec fn peripherals_named(&self) -> bool {
        &&& self.CBP@ == PeripheralId::CBP
        &&& self.CPUID@ == PeripheralId::CPUID
        &&& self.DCB@ == PeripheralId::DCB
        &&& self.DWT@ == PeripheralId::DWT
        &&& self.FPB@ == PeripheralId::FPB
        &&& self.ITM@ == PeripheralId::ITM
        &&& self.MPU@ == PeripheralId::MPU
        &&& self.NVIC@ == PeripheralId::NVIC
        &&& self.SCB@ == PeripheralId::SCB
        &&& self.SYST@ == PeripheralId::SYST
        &&& self.TPIU@ == PeripheralId::TPIU
        &&& self.ADC@ == PeripheralId::ADC
        &&& self.CLOCK@ == PeripheralId::CLOCK
        &&& self.FICR@ == PeripheralId::FICR
        &&& self.GPIOTE@ == PeripheralId::GPIOTE
        &&& self.PPI@ == PeripheralId::PPI
        &&& self.RADIO@ == PeripheralId::RADIO
        &&& self.RNG@ == PeripheralId::RNG
        &&& self.RTC0@ == PeripheralId::RTC0
        &&& self.TEMP@ == PeripheralId::TEMP
        &&& self.TIMER0@ == PeripheralId::TIMER0
        &&& self.TIMER1@ == PeripheralId::TIMER1
        &&& self.TIMER2@ == PeripheralId::TIMER2
        &&& self.TWI0@ == PeripheralId::TWI0
        &&& self.UART0@ == PeripheralId::UART0
    }

    /// Take the peripherals safely
    ///
    /// This method will return an instance of the board the first time it is
    /// called on a chip. It will return only `None` on subsequent calls.
    /// This function can also return `None` if one of the the peripherals was
    /// already taken.
    pub fn take(chip: &mut Chip) -> (board: Option<Self>)
        ensures
            board.is_some() <==> !old(chip).device_taken() && !old(chip).core_taken(),
            board matches Some(b) ==> b.pins_configured() && b.peripherals_named(),
            final(chip).device_taken(),
            final(chip).core_taken() == (old(chip).core_taken() || !old(chip).device_taken()),
    {
        Some(Self::new(Peripherals::take(chip)?, CorePeripherals::take(chip)?))
    }

    /// Fallback method in the case peripherals and core peripherals were taken
    /// elsewhere already.
    ///
    /// This method will take the peripherals and core peripherals and
    /// return an instance of the board.
    pub fn new(p: Peripherals, cp: CorePeripherals) -> (board: Self)
        requires
            p.GPIO@ == PeripheralId::GPIO,
        ensures
            board.pins_configured(),
            board.holds(p, cp),
    {
        let p0parts = Parts::new(p.GPIO);
        Self {
            pins: Pins { p0_23: p0parts.p0_23 },
            edge: Edge {
                e00: p0parts.p0_00,
                e01: p0parts.p0_01,
                e02: p0parts.p0_02,
                e03: p0parts.p0_22,
                e16: p0parts.p0_26,
                e17: p0parts.p0_27,
            },
            display_pins: DisplayPins {
                row1: p0parts.p0_13.into_push_pull_output(Level::Low),
                row2: p0parts.p0_14.into_push_pull_output(Level::Low),
                row3: p0parts.p0_15.into_push_pull_output(Level::Low),
                col1: p0parts.p0_04.into_push_pull_output(Level::High),
                col2: p0parts.p0_05.into_push_pull_output(Level::High),
                col3: p0parts.p0_06.into_push_pull_output(Level::High),
                col4: p0parts.p0_07.into_push_pull_output(Level::High),
                col5: p0parts.p0_08.into_push_pull_output(Level::High),
                col6: p0parts.p0_09.into_push_pull_output(Level::High),
                col7: p0parts.p0_10.into_push_pull_output(Level::High),
                col8: p0parts.p0_11.into_push_pull_output(Level::High),
                col9: p0parts.p0_12.into_push_pull_output(Level::High),
            },
            buttons: Buttons {
                button_a: p0parts.p0_17.into_floating_input(),
                button_b: p0parts.p0_16.into_floating_input(),
            },
            beeper_motor_pins: BeeperMotorPins {
                motor_nsleep: p0parts.p0_28.into_push_pull_output(Level::Low),
                motor_in1: p0parts.p0_29.into_push_pull_output(Level::Low),
                motor_in2: p0parts.p0_30.into_push_pull_output(Level::Low),
            },
            microphone_pins: MicrophonePins { mic_in: p0parts.p0_03.into_floating_input() },
            rgb_led_pin: p0parts.p0_18.into_push_pull_output(Level::Low),
            i2c: I2CPins {
                scl: p0parts.p0_19.into_floating_input(),
                sda: p0parts.p0_20.into_floating_input(),
            },
            uart: UartPins {
                tx: p0parts.p0_24.into_push_pull_output(Level::Low),
                rx: p0parts.p0_25.into_floating_input(),
            },
            // Core peripherals
            CBP: cp.CBP,
            CPUID: cp.CPUID,
            DCB: cp.DCB,
            DWT: cp.DWT,
            FPB: cp.FPB,
            ITM: cp.ITM,
            MPU: cp.MPU,
            NVIC: cp.NVIC,
            SCB: cp.SCB,
            SYST: cp.SYST,
            TPIU: cp.TPIU,
            // nRF51 peripherals
            ADC: p.ADC,
            CLOCK: p.CLOCK,
            FICR: p.FICR,
            GPIOTE: p.GPIOTE,
            PPI: p.PPI,
            RADIO: p.RADIO,
            RNG: p.RNG,
            RTC0: p.RTC0,
            TEMP: p.TEMP,
            TIMER0: p.TIMER0,
            TIMER1: p.TIMER1,
            TIMER2: p.TIMER2,
            TWI0: p.TWI0,
            UART0: p.UART0,
        }
    }
}

} // verus!
