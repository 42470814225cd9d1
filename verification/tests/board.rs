use microbit_board::board::Board;
use microbit_board::gpio::{display_pins, Level, Parts, PinMode, NUM_COLS, NUM_ROWS};
use microbit_board::peripheral::{Chip, CorePeripherals, PeripheralId, Peripherals};

#[test]
fn board_is_taken_once() {
    let mut chip = Chip::new();
    assert!(Board::take(&mut chip).is_some());
    assert!(Board::take(&mut chip).is_none());
    assert!(Board::take(&mut chip).is_none());
}

#[test]
fn board_is_not_to_be_had_after_the_peripherals() {
    let mut chip = Chip::new();
    let peripherals = Peripherals::take(&mut chip);
    assert!(peripherals.is_some());
    assert!(Board::take(&mut chip).is_none());
    // the core peripherals were not touched by the failed attempt
    assert!(CorePeripherals::take(&mut chip).is_some());
}

#[test]
fn board_is_not_to_be_had_after_the_core_peripherals() {
    let mut chip = Chip::new();
    assert!(CorePeripherals::take(&mut chip).is_some());
    assert!(Board::take(&mut chip).is_none());
    // the failed attempt used the device peripherals up
    assert!(Peripherals::take(&mut chip).is_none());
}

#[test]
fn board_is_built_from_peripherals_taken_elsewhere() {
    let mut chip = Chip::new();
    let p = Peripherals::take(&mut chip).unwrap();
    let cp = CorePeripherals::take(&mut chip).unwrap();
    let board = Board::new(p, cp);
    assert_eq!(board.TIMER0.id(), PeripheralId::TIMER0);
    assert_eq!(board.SYST.id(), PeripheralId::SYST);
}

#[test]
fn board_names_every_peripheral() {
    let board = Board::take(&mut Chip::new()).unwrap();
    assert_eq!(board.CBP.id(), PeripheralId::CBP);
    assert_eq!(board.CPUID.id(), PeripheralId::CPUID);
    assert_eq!(board.DCB.id(), PeripheralId::DCB);
    assert_eq!(board.DWT.id(), PeripheralId::DWT);
    assert_eq!(board.FPB.id(), PeripheralId::FPB);
    assert_eq!(board.ITM.id(), PeripheralId::ITM);
    assert_eq!(board.MPU.id(), PeripheralId::MPU);
    assert_eq!(board.NVIC.id(), PeripheralId::NVIC);
    assert_eq!(board.SCB.id(), PeripheralId::SCB);
    assert_eq!(board.SYST.id(), PeripheralId::SYST);
    assert_eq!(board.TPIU.id(), PeripheralId::TPIU);
    assert_eq!(board.ADC.id(), PeripheralId::ADC);
    assert_eq!(board.CLOCK.id(), PeripheralId::CLOCK);
    assert_eq!(board.FICR.id(), PeripheralId::FICR);
    assert_eq!(board.GPIOTE.id(), PeripheralId::GPIOTE);
    assert_eq!(board.PPI.id(), PeripheralId::PPI);
    assert_eq!(board.RADIO.id(), PeripheralId::RADIO);
    assert_eq!(board.RNG.id(), PeripheralId::RNG);
    assert_eq!(board.RTC0.id(), PeripheralId::RTC0);
    assert_eq!(board.TEMP.id(), PeripheralId::TEMP);
    assert_eq!(board.TIMER0.id(), PeripheralId::TIMER0);
    assert_eq!(board.TIMER1.id(), PeripheralId::TIMER1);
    assert_eq!(board.TIMER2.id(), PeripheralId::TIMER2);
    assert_eq!(board.TWI0.id(), PeripheralId::TWI0);
    assert_eq!(board.UART0.id(), PeripheralId::UART0);
}

#[test]
fn board_configures_its_lines() {
    let board = Board::take(&mut Chip::new()).unwrap();
    assert_eq!(board.pins.p0_23.mode(), PinMode::Disconnected);
    assert_eq!(board.edge.e00.mode(), PinMode::Disconnected);
    assert_eq!(board.edge.e03.mode(), PinMode::Disconnected);
    assert_eq!(board.edge.e17.mode(), PinMode::Disconnected);
    assert_eq!(board.display_pins.row1.mode(), PinMode::PushPullOutput(Level::Low));
    assert_eq!(board.display_pins.row3.mode(), PinMode::PushPullOutput(Level::Low));
    assert_eq!(board.display_pins.col1.mode(), PinMode::PushPullOutput(Level::High));
    assert_eq!(board.display_pins.col9.mode(), PinMode::PushPullOutput(Level::High));
    assert_eq!(board.buttons.button_a.mode(), PinMode::FloatingInput);
    assert_eq!(board.buttons.button_b.mode(), PinMode::FloatingInput);
    assert_eq!(board.beeper_motor_pins.motor_nsleep.mode(), PinMode::PushPullOutput(Level::Low));
    assert_eq!(board.beeper_motor_pins.motor_in1.mode(), PinMode::PushPullOutput(Level::Low));
    assert_eq!(board.beeper_motor_pins.motor_in2.mode(), PinMode::PushPullOutput(Level::Low));
    assert_eq!(board.microphone_pins.mic_in.mode(), PinMode::FloatingInput);
    assert_eq!(board.rgb_led_pin.mode(), PinMode::PushPullOutput(Level::Low));
}

#[test]
fn board_lines_have_their_numbers() {
    let board = Board::take(&mut Chip::new()).unwrap();
    assert_eq!(board.pins.p0_23.degrade().number, 23);
    assert_eq!(board.edge.e00.degrade().number, 0);
    assert_eq!(board.edge.e01.degrade().number, 1);
    assert_eq!(board.edge.e02.degrade().number, 2);
    assert_eq!(board.edge.e03.degrade().number, 22);
    assert_eq!(board.edge.e16.degrade().number, 26);
    assert_eq!(board.edge.e17.degrade().number, 27);
    assert_eq!(board.buttons.button_a.degrade().number, 17);
    assert_eq!(board.buttons.button_b.degrade().number, 16);
    assert_eq!(board.beeper_motor_pins.motor_nsleep.degrade().number, 28);
    assert_eq!(board.beeper_motor_pins.motor_in1.degrade().number, 29);
    assert_eq!(board.beeper_motor_pins.motor_in2.degrade().number, 30);
    assert_eq!(board.microphone_pins.mic_in.degrade().number, 3);
    assert_eq!(board.rgb_led_pin.degrade().number, 18);
}

#[test]
fn display_pins_degrade_in_order() {
    let board = Board::take(&mut Chip::new()).unwrap();
    let (cols, rows) = board.display_pins.degrade();
    assert_eq!(cols.len(), NUM_COLS);
    assert_eq!(rows.len(), NUM_ROWS);
    let col_numbers: Vec<u8> = cols.iter().map(|pin| pin.number).collect();
    assert_eq!(col_numbers, vec![4, 5, 6, 7, 8, 9, 10, 11, 12]);
    let row_numbers: Vec<u8> = rows.iter().map(|pin| pin.number).collect();
    assert_eq!(row_numbers, vec![13, 14, 15]);
    for pin in cols.iter() {
        assert_eq!(pin.mode, PinMode::PushPullOutput(Level::High));
    }
    for pin in rows.iter() {
        assert_eq!(pin.mode, PinMode::PushPullOutput(Level::Low));
    }
}

#[test]
fn display_pins_from_the_port_are_all_low() {
    let mut chip = Chip::new();
    let p = Peripherals::take(&mut chip).unwrap();
    let pins = display_pins(Parts::new(p.GPIO));
    let (cols, rows) = pins.degrade();
    for pin in cols.iter().chain(rows.iter()) {
        assert_eq!(pin.mode, PinMode::PushPullOutput(Level::Low));
    }
    assert_eq!(cols[0].number, 4);
    assert_eq!(rows[2].number, 15);
}

#[test]
fn port_starts_disconnected() {
    let mut chip = Chip::new();
    let p = Peripherals::take(&mut chip).unwrap();
    let parts = Parts::new(p.GPIO);
    assert_eq!(parts.p0_00.mode(), PinMode::Disconnected);
    assert_eq!(parts.p0_21.mode(), PinMode::Disconnected);
    assert_eq!(parts.p0_30.mode(), PinMode::Disconnected);
    let pin = parts.p0_21.into_floating_input().degrade();
    assert_eq!(pin.number, 21);
    assert_eq!(pin.mode, PinMode::FloatingInput);
}

#[test]
fn i2c_pins_become_bus_pins() {
    let board = Board::take(&mut Chip::new()).unwrap();
    assert_eq!(board.i2c.scl_mode(), PinMode::FloatingInput);
    assert_eq!(board.i2c.sda_mode(), PinMode::FloatingInput);
    let pins = microbit_board::twi::Pins::from(board.i2c);
    assert_eq!(pins.scl.number, 19);
    assert_eq!(pins.sda.number, 20);
    assert_eq!(pins.scl.mode, PinMode::FloatingInput);
    assert_eq!(pins.sda.mode, PinMode::FloatingInput);
}

#[test]
fn uart_pins_become_port_pins_without_flow_control() {
    let board = Board::take(&mut Chip::new()).unwrap();
    assert_eq!(board.uart.tx_mode(), PinMode::PushPullOutput(Level::Low));
    assert_eq!(board.uart.rx_mode(), PinMode::FloatingInput);
    let pins = microbit_board::uart::Pins::from(board.uart);
    assert_eq!(pins.rxd.number, 25);
    assert_eq!(pins.txd.number, 24);
    assert_eq!(pins.rxd.mode, PinMode::FloatingInput);
    assert_eq!(pins.txd.mode, PinMode::PushPullOutput(Level::Low));
    assert!(pins.cts.is_none());
    assert!(pins.rts.is_none());
}
