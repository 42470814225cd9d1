use microbit_board::board::Board;
use microbit_board::channel::{ChannelBinding, TaskSink};
use microbit_board::engine::{ToneEngine, TIMER_BIT_WIDTH, TIMER_CLOCK_HZ};
use microbit_board::frequency::{compute_timer_config, ConfigError};
use microbit_board::gpio::Level;
use microbit_board::hardware::Command;
use microbit_board::peripheral::Chip;
use microbit_board::power::PowerGate;
use microbit_board::route::{EventRoute, EventRouteTable, EventSource, MAX_ROUTES};
use microbit_board::timer::{TimerRunState, ToneTimerController};

fn engine() -> (ToneEngine, Vec<Command>) {
    let board = Board::take(&mut Chip::new()).unwrap();
    ToneEngine::new(board.TIMER0, board.GPIOTE, board.PPI, board.beeper_motor_pins)
}

fn controller() -> (ToneTimerController, Vec<Command>) {
    let board = Board::take(&mut Chip::new()).unwrap();
    ToneTimerController::new(
        board.TIMER0,
        board.GPIOTE,
        board.PPI,
        board.beeper_motor_pins.motor_in1.degrade(),
        board.beeper_motor_pins.motor_in2.degrade(),
    )
}

fn setup() -> Vec<Command> {
    vec![
        Command::BindChannel { channel: 0, pin: 29, initial_polarity: Level::Low },
        Command::BindChannel { channel: 1, pin: 30, initial_polarity: Level::High },
        Command::BindRoute { route: 0, compare: 0, channel: 0 },
        Command::BindRoute { route: 1, compare: 1, channel: 1 },
        Command::BindRoute { route: 2, compare: 2, channel: 0 },
        Command::BindRoute { route: 3, compare: 3, channel: 1 },
        Command::SetUpTimer,
    ]
}

fn quiesce() -> Vec<Command> {
    vec![
        Command::SetRouteEnabled { route: 0, enabled: false },
        Command::SetRouteEnabled { route: 1, enabled: false },
        Command::SetRouteEnabled { route: 2, enabled: false },
        Command::SetRouteEnabled { route: 3, enabled: false },
        Command::SetTaskEnabled { channel: 0, enabled: false },
        Command::SetTaskEnabled { channel: 1, enabled: false },
    ]
}

fn write(exponent: u8, rising: u16, falling: u16, period: u16) -> Vec<Command> {
    vec![
        Command::WritePrescaler { exponent },
        Command::WriteCompare { slot: 0, value: rising },
        Command::WriteCompare { slot: 1, value: falling },
        Command::WriteCompare { slot: 2, value: period - 1 },
        Command::WriteCompare { slot: 3, value: period },
        Command::ArmAutoClear,
    ]
}

fn start() -> Vec<Command> {
    vec![
        Command::SetTaskEnabled { channel: 0, enabled: true },
        Command::SetTaskEnabled { channel: 1, enabled: true },
        Command::SetRouteEnabled { route: 0, enabled: true },
        Command::SetRouteEnabled { route: 1, enabled: true },
        Command::SetRouteEnabled { route: 2, enabled: true },
        Command::SetRouteEnabled { route: 3, enabled: true },
        Command::StartTimer,
    ]
}

fn concat(parts: Vec<Vec<Command>>) -> Vec<Command> {
    parts.into_iter().flatten().collect()
}

#[test]
fn engine_constants_are_those_of_the_board() {
    assert_eq!(TIMER_CLOCK_HZ, 16_000_000);
    assert_eq!(TIMER_BIT_WIDTH, 16);
}

#[test]
fn new_engine_is_silent_and_hands_back_the_setup() {
    let (engine, commands) = engine();
    assert_eq!(commands, setup());
    assert!(!engine.is_sounding());
    assert!(!engine.driver_enabled());
    assert_eq!(engine.controller().state(), TimerRunState::Idle);
    let registers = engine.controller().registers();
    assert!(registers.set_up);
    assert!(!registers.running);
    assert!(!registers.auto_clear);
}

#[test]
fn start_tone_220_hz_end_to_end() {
    let (mut engine, _) = engine();
    let commands = engine.start_tone(220, 50).unwrap();
    let expected = concat(vec![
        write(4, 2271, 2273, 4545),
        start(),
        vec![Command::SetDriverEnabled { enabled: true }],
    ]);
    assert_eq!(commands, expected);
    assert!(engine.is_sounding());
    assert!(engine.driver_enabled());
    let registers = engine.controller().registers();
    assert!(registers.running);
    assert!(registers.auto_clear);
    assert_eq!(registers.prescaler, 4);
    assert_eq!(registers.cc0, 2271);
    assert_eq!(registers.cc1, 2273);
    assert_eq!(registers.cc2, 4544);
    assert_eq!(registers.cc3, 4545);
}

#[test]
fn retune_from_220_to_440_hz_halts_before_it_writes() {
    let (mut engine, _) = engine();
    engine.start_tone(220, 50).unwrap();
    let commands = engine.start_tone(440, 50).unwrap();
    let expected = concat(vec![
        vec![Command::StopTimer, Command::ClearTimer],
        quiesce(),
        write(0, 18180, 18182, 36363),
        start(),
        vec![Command::SetDriverEnabled { enabled: true }],
    ]);
    assert_eq!(commands, expected);
    assert!(engine.is_sounding());
    let registers = engine.controller().registers();
    assert_eq!(registers.prescaler, 0);
    assert_eq!(registers.cc0, 18180);
    assert_eq!(registers.cc1, 18182);
    assert_eq!(registers.cc2, 36362);
    assert_eq!(registers.cc3, 36363);
}

#[test]
fn retune_never_writes_a_register_with_a_route_on() {
    let (mut engine, _) = engine();
    engine.start_tone(220, 50).unwrap();
    let commands = engine.start_tone(440, 50).unwrap();
    let mut running = true;
    let mut routes = [true; 4];
    let mut tasks = [true; 2];
    for command in commands {
        match command {
            Command::StopTimer => running = false,
            Command::StartTimer => running = true,
            Command::SetRouteEnabled { route, enabled } => {
                assert!(!enabled || !running);
                routes[route as usize] = enabled;
            }
            Command::SetTaskEnabled { channel, enabled } => {
                assert!(!enabled || !running);
                tasks[channel as usize] = enabled;
            }
            Command::WritePrescaler { .. } | Command::WriteCompare { .. } | Command::ArmAutoClear => {
                assert!(!running);
                assert!(routes.iter().all(|on| !on));
                assert!(tasks.iter().all(|on| !on));
            }
            Command::SetDriverEnabled { enabled } => assert!(!enabled || running),
            Command::ClearTimer => assert!(!running),
            _ => unreachable!(),
        }
    }
    assert!(running);
    assert!(routes.iter().all(|on| *on));
    assert!(tasks.iter().all(|on| *on));
}

#[test]
fn stop_tone_puts_the_driver_to_sleep_first() {
    let (mut engine, _) = engine();
    engine.start_tone(440, 50).unwrap();
    let commands = engine.stop_tone();
    let expected = concat(vec![
        vec![Command::SetDriverEnabled { enabled: false }, Command::StopTimer],
        quiesce(),
    ]);
    assert_eq!(commands, expected);
    assert!(!engine.is_sounding());
    assert!(!engine.driver_enabled());
    assert_eq!(engine.controller().state(), TimerRunState::Idle);
    // the registers keep what was written
    assert_eq!(engine.controller().registers().cc3, 36363);
}

#[test]
fn stop_tone_on_a_silent_engine_does_nothing() {
    let (mut engine, _) = engine();
    assert_eq!(engine.stop_tone(), vec![]);
    engine.start_tone(440, 50).unwrap();
    engine.stop_tone();
    assert_eq!(engine.stop_tone(), vec![]);
    assert!(!engine.is_sounding());
}

#[test]
fn start_after_stop_needs_no_halt() {
    let (mut engine, _) = engine();
    engine.start_tone(220, 50).unwrap();
    engine.stop_tone();
    let commands = engine.start_tone(880, 10).unwrap();
    let expected = concat(vec![
        write(0, 1817, 16363, 18181),
        start(),
        vec![Command::SetDriverEnabled { enabled: true }],
    ]);
    assert_eq!(commands, expected);
}

#[test]
fn rejected_request_changes_nothing() {
    let (mut engine, _) = engine();
    assert_eq!(engine.start_tone(0, 50).err(), Some(ConfigError::InvalidInput));
    assert_eq!(engine.start_tone(440, 0).err(), Some(ConfigError::InvalidInput));
    assert_eq!(engine.start_tone(440, 51).err(), Some(ConfigError::InvalidInput));
    assert_eq!(engine.start_tone(15, 50).err(), Some(ConfigError::FrequencyTooLow));
    assert_eq!(engine.start_tone(16_000_000, 50).err(), Some(ConfigError::FrequencyTooLow));
    assert!(!engine.is_sounding());
    assert!(!engine.driver_enabled());
    engine.start_tone(220, 50).unwrap();
    assert_eq!(engine.start_tone(15, 50).err(), Some(ConfigError::FrequencyTooLow));
    assert!(engine.is_sounding());
    assert!(engine.driver_enabled());
    assert_eq!(engine.controller().registers().cc3, 4545);
    assert!(engine.controller().registers().running);
}

#[test]
fn controller_walks_through_its_states() {
    let (mut controller, commands) = controller();
    assert_eq!(commands, setup());
    assert_eq!(controller.state(), TimerRunState::Idle);
    let config = compute_timer_config(220, 50, 16_000_000, 16).unwrap();
    assert_eq!(controller.configure(&config), write(4, 2271, 2273, 4545));
    assert_eq!(controller.state(), TimerRunState::Configured);
    assert!(!controller.registers().running);
    assert_eq!(controller.start(), start());
    assert_eq!(controller.state(), TimerRunState::Running);
    assert!(controller.registers().running);
    assert!(!controller.registers().cleared);
    let again = compute_timer_config(1000, 20, 16_000_000, 16).unwrap();
    let expected = concat(vec![
        vec![Command::StopTimer, Command::ClearTimer],
        quiesce(),
        write(0, 3199, 12800, 16000),
    ]);
    assert_eq!(controller.configure(&again), expected);
    assert_eq!(controller.state(), TimerRunState::Configured);
    assert!(controller.registers().cleared);
    assert_eq!(controller.start(), start());
    assert_eq!(controller.stop(), concat(vec![vec![Command::StopTimer], quiesce()]));
    assert_eq!(controller.state(), TimerRunState::Idle);
    assert_eq!(controller.stop(), vec![]);
    assert_eq!(controller.state(), TimerRunState::Idle);
}

#[test]
fn controller_switches_routes_and_tasks_with_the_timer() {
    let (mut controller, _) = controller();
    for route in 0..4u8 {
        let found = controller.route(route).unwrap();
        assert_eq!(found.event_source, EventSource::TimerCompare(route));
        assert_eq!(found.task_sink, TaskSink::ChannelToggle(route % 2));
        assert!(!found.enabled);
    }
    assert!(controller.route(4).is_none());
    let a = controller.channel(0).unwrap();
    let b = controller.channel(1).unwrap();
    assert!(controller.channel(2).is_none());
    assert_eq!((a.channel, a.pin, a.initial_polarity), (0, 29, Level::Low));
    assert_eq!((b.channel, b.pin, b.initial_polarity), (1, 30, Level::High));
    assert!(a.toggle_on_task && b.toggle_on_task);
    assert!(!a.task_enabled && !b.task_enabled);
    let config = compute_timer_config(440, 50, 16_000_000, 16).unwrap();
    controller.configure(&config);
    controller.start();
    for route in 0..4u8 {
        assert!(controller.route(route).unwrap().enabled);
    }
    assert!(controller.channel(0).unwrap().task_enabled);
    assert!(controller.channel(1).unwrap().task_enabled);
    controller.stop();
    for route in 0..4u8 {
        assert!(!controller.route(route).unwrap().enabled);
    }
    assert!(!controller.channel(0).unwrap().task_enabled);
    assert!(!controller.channel(1).unwrap().task_enabled);
}

#[test]
fn channel_binding_owns_its_line() {
    let board = Board::take(&mut Chip::new()).unwrap();
    let line = board.beeper_motor_pins.motor_in1.degrade();
    let mut binding = ChannelBinding::bind(3, line, Level::High);
    let held = binding.line();
    assert_eq!(held.channel, 3);
    assert_eq!(held.pin, 29);
    assert_eq!(held.initial_polarity, Level::High);
    assert!(held.toggle_on_task);
    assert!(!held.task_enabled);
    assert_eq!(binding.task_sink(), TaskSink::ChannelToggle(3));
    binding.enable_task();
    assert!(binding.line().task_enabled);
    binding.enable_task();
    assert!(binding.line().task_enabled);
    binding.disable_task();
    assert!(!binding.line().task_enabled);
    assert_eq!(binding.line().pin, 29);
    assert_eq!(binding.line().initial_polarity, Level::High);
}

#[test]
fn routes_are_bound_disabled_and_switched_one_by_one() {
    let board = Board::take(&mut Chip::new()).unwrap();
    let a = ChannelBinding::bind(0, board.beeper_motor_pins.motor_in1.degrade(), Level::Low);
    let b = ChannelBinding::bind(1, board.beeper_motor_pins.motor_in2.degrade(), Level::High);
    let mut table = EventRouteTable::new();
    assert_eq!(table.len(), 0);
    assert_eq!(table.bind_route(EventSource::TimerCompare(0), &a), Some(0));
    assert_eq!(table.bind_route(EventSource::TimerCompare(2), &a), Some(1));
    assert_eq!(table.bind_route(EventSource::TimerCompare(1), &b), Some(2));
    assert_eq!(table.len(), 3);
    assert_eq!(
        table.route(1),
        Some(EventRoute {
            event_source: EventSource::TimerCompare(2),
            task_sink: TaskSink::ChannelToggle(0),
            enabled: false,
        })
    );
    table.enable(1);
    assert!(!table.route(0).unwrap().enabled);
    assert!(table.route(1).unwrap().enabled);
    assert!(!table.route(2).unwrap().enabled);
    table.enable(1);
    assert!(table.route(1).unwrap().enabled);
    table.disable(1);
    assert!(!table.route(1).unwrap().enabled);
    table.disable(1);
    assert!(!table.route(1).unwrap().enabled);
    assert_eq!(table.route(1).unwrap().event_source, EventSource::TimerCompare(2));
    // a number that no route has
    table.enable(3);
    assert_eq!(table.len(), 3);
    assert!(table.route(3).is_none());
    assert!(!table.route(0).unwrap().enabled && !table.route(2).unwrap().enabled);
}

#[test]
fn route_table_holds_sixteen_routes() {
    let board = Board::take(&mut Chip::new()).unwrap();
    let a = ChannelBinding::bind(0, board.beeper_motor_pins.motor_in1.degrade(), Level::Low);
    let mut table = EventRouteTable::new();
    for i in 0..MAX_ROUTES {
        assert_eq!(table.bind_route(EventSource::TimerCompare(0), &a), Some(i as u8));
    }
    assert_eq!(table.bind_route(EventSource::TimerCompare(0), &a), None);
    assert_eq!(table.len(), 16);
}

#[test]
fn power_gate_starts_low() {
    let board = Board::take(&mut Chip::new()).unwrap();
    let mut gate = PowerGate::new(board.beeper_motor_pins.motor_nsleep.degrade());
    assert!(!gate.is_enabled());
    assert_eq!(gate.line_number(), 28);
    gate.enable();
    assert!(gate.is_enabled());
    gate.enable();
    assert!(gate.is_enabled());
    gate.disable();
    assert!(!gate.is_enabled());
    assert_eq!(gate.line_number(), 28);
}

#[test]
fn power_gate_keeps_the_line_it_was_given() {
    let board = Board::take(&mut Chip::new()).unwrap();
    let gate = PowerGate::new(board.beeper_motor_pins.motor_in2.degrade());
    assert_eq!(gate.line_number(), 30);
    assert!(!gate.is_enabled());
}
