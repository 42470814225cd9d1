//! The chip's peripherals as handles that exist once.
//!
//! A handle stands for the exclusive right to program one peripheral. Handles
//! cannot be copied or made up: they come out of a [`Chip`], which gives each
//! set away a single time.
use vstd::prelude::*;

verus! {

/// The peripherals the board hands out.
#[derive(Clone, Copy, Debug, PartialEq, Eq, Structural)]
pub enum PeripheralId {
    /// Cache and branch predictor maintenance operations.
    CBP,
    CPUID,
    /// Debug control block.
    DCB,
    /// Data watchpoint and trace unit.
    DWT,
    /// Flash patch and breakpoint unit.
    FPB,
    /// Instrumentation trace macrocell.
    ITM,
    /// Memory protection unit.
    MPU,
    /// Nested vector interrupt controller.
    NVIC,
    /// System control block.
    SCB,
    /// SysTick timer.
    SYST,
    /// Trace port interface unit.
    TPIU,
    GPIO,
    ADC,
    CLOCK,
    FICR,
    GPIOTE,
    PPI,
    RADIO,
    RNG,
    RTC0,
    TEMP,
    TIMER0,
    TIMER1,
    TIMER2,
    TWI0,
    UART0,
}

/// The exclusive handle to one peripheral.
#[derive(Debug)]
pub struct Peripheral {
    id: PeripheralId,
}

impl Peripheral {
    /// Which peripheral the handle is for.
    pub closed spec fn view(&self) -> PeripheralId {
        self.id
    }

    /// Which peripheral the handle is for.
    pub fn id(&self) -> (id: PeripheralId)
        ensures
            id == self@,
    {
        self.id
    }
}

/// A chip after reset, and which of its two sets of handles are gone.
#[derive(Debug)]
pub struct Chip {
    device_taken: bool,
    core_taken: bool,
}

impl Chip {
    /// Whether the device peripherals have been taken.
    pub closed spec fn device_taken(&self) -> bool {
        self.device_taken
    }

    /// Whether the core peripherals have been taken.
    pub closed spec fn core_taken(&self) -> bool {
        self.core_taken
    }

    /// A chip whose peripherals are all still to be had.
    pub fn new() -> (chip: Self)
        ensures
            !chip.device_taken(),
            !chip.core_taken(),
    {
        Chip { device_taken: false, core_taken: false }
    }
}

/// The device peripherals, one handle each.
#[derive(Debug)]
pub struct Peripherals {
    pub GPIO: Peripheral,
    pub ADC: Peripheral,
    pub CLOCK: Peripheral,
    pub FICR: Peripheral,
    pub GPIOTE: Peripheral,
    pub PPI: Peripheral,
    pub RADIO: Peripheral,
    pub RNG: Peripheral,
    pub RTC0: Peripheral,
    pub TEMP: Peripheral,
    pub TIMER0: Peripheral,
    pub TIMER1: Peripheral,
    pub TIMER2: Peripheral,
    pub TWI0: Peripheral,
    pub UART0: Peripheral,
}

/// The core peripherals, one handle each.
#[derive(Debug)]
pub struct CorePeripherals {
    pub CBP: Peripheral,
    pub CPUID: Peripheral,
    pub DCB: Peripheral,
    pub DWT: Peripheral,
    pub FPB: Peripheral,
    pub ITM: Peripheral,
    pub MPU: Peripheral,
    pub NVIC: Peripheral,
    pub SCB: Peripheral,
    pub SYST: Peripheral,
    pub TPIU: Peripheral,
}

impl Peripherals {
    /// Every field holds the handle of the peripheral it is named after.
    pub open spec fn wf(&self) -> bool {
        &&& self.GPIO@ == PeripheralId::GPIO
        &&& self.ADC@ == PeripheralId::ADC
        &&& self.CLOCK@ == PeripheralId::CLOCK
        &&& self.FICR@ == PeripheralId::FICR
        &&& self.GPIOTE@ == PeripheralId::GPIOTE
        &&& self.PPI@ == PeripheralId::PPI
        &&& self.RADIO@ == PeripheralId::RADIO
        &&& self.RNG@ == PeripheralId::RNG
        &&& self.RTC0@ == PeripheralId::RTC0
        &&& self.TEMP@ == PeripheralId::TEMP
        &&& self.TIMER0@ == PeripheralId::TIMER0
        &&& self.TIMER1@ == PeripheralId::TIMER1
        &&& self.TIMER2@ == PeripheralId::TIMER2
        &&& self.TWI0@ == PeripheralId::TWI0
        &&& self.UART0@ == PeripheralId::UART0
    }

    /// Takes the device peripherals. Gives them the first time it is called on
    /// a chip, and `None` from then on.
    pub fn take(chip: &mut Chip) -> (taken: Option<Self>)
        ensures
            taken.is_some() <==> !old(chip).device_taken(),
            taken matches Some(p) ==> p.wf(),
            final(chip).device_taken(),
            final(chip).core_taken() == old(chip).core_taken(),
    {
        if chip.device_taken {
            return None;
        }
        chip.device_taken = true;
        Some(
            Peripherals {
                GPIO: Peripheral { id: PeripheralId::GPIO },
                ADC: Peripheral { id: PeripheralId::ADC },
                CLOCK: Peripheral { id: PeripheralId::CLOCK },
                FICR: Peripheral { id: PeripheralId::FICR },
                GPIOTE: Peripheral { id: PeripheralId::GPIOTE },
                PPI: Peripheral { id: PeripheralId::PPI },
                RADIO: Peripheral { id: PeripheralId::RADIO },
                RNG: Peripheral { id: PeripheralId::RNG },
                RTC0: Peripheral { id: PeripheralId::RTC0 },
                TEMP: Peripheral { id: PeripheralId::TEMP },
                TIMER0: Peripheral { id: PeripheralId::TIMER0 },
                TIMER1: Peripheral { id: PeripheralId::TIMER1 },
                TIMER2: Peripheral { id: PeripheralId::TIMER2 },
                TWI0: Peripheral { id: PeripheralId::TWI0 },
                UART0: Peripheral { id: PeripheralId::UART0 },
            },
        )
    }
}

impl CorePeripherals {
    /// Every field holds the handle of the peripheral it is named after.
    pub open spec fn wf(&self) -> bool {
        &&& self.CBP@ == PeripheralId::CBP
        &&& self.CPUID@ == PeripheralId::CPUID
        &&& self.DCB@ == PeripheralId::DCB
        &&& self.DWT@ == PeripheralId::DWT
        &&& self.FPB@ == PeripheralId::FPB
        &&& self.ITM@ == PeripheralId::ITM
        &&& self.MPU@ == PeripheralId::MPU
        &&& self.NVIC@ == PeripheralId::NVIC
        &&& self.SCB@ == PeripheralId::SCB
        &&& self.SYST@ == PeripheralId::SYST
        &&& self.TPIU@ == PeripheralId::TPIU
    }

    /// Takes the core peripherals. Gives them the first time it is called on a
    /// chip, and `None` from then on.
    pub fn take(chip: &mut Chip) -> (taken: Option<Self>)
        ensures
            taken.is_some() <==> !old(chip).core_taken(),
            taken matches Some(cp) ==> cp.wf(),
            final(chip).core_taken(),
            final(chip).device_taken() == old(chip).device_taken(),
    {
        if chip.core_taken {
            return None;
        }
        chip.core_taken = true;
        Some(
            CorePeripherals {
                CBP: Peripheral { id: PeripheralId::CBP },
                CPUID: Peripheral { id: PeripheralId::CPUID },
                DCB: Peripheral { id: PeripheralId::DCB },
                DWT: Peripheral { id: PeripheralId::DWT },
                FPB: Peripheral { id: PeripheralId::FPB },
                ITM: Peripheral { id: PeripheralId::ITM },
                MPU: Peripheral { id: PeripheralId::MPU },
                NVIC: Peripheral { id: PeripheralId::NVIC },
                SCB: Peripheral { id: PeripheralId::SCB },
                SYST: Peripheral { id: PeripheralId::SYST },
                TPIU: Peripheral { id: PeripheralId::TPIU },
            },
        )
    }
}

} // verus!
