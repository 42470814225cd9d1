//! The countdown timer that paces the tone, with its two toggle channels and
//! four routes, as a state machine.
//!
//! Each operation changes what the controller holds and hands back the
//! commands that make the hardware hold the same, in the order in which they
//! have to be carried out.
use vstd::prelude::*;
use crate::channel::{ChannelBinding, ChannelLine, TaskSink};
use crate::frequency::{TimerConfig, TimerConfigView};
use crate::gpio::{Level, Pin};
use crate::hardware::{
    Command, HardwareView, TimerRegisters, allowed_upto, hardware_at_reset, lemma_run_concat,
    allowed, quiet, run, run_upto, step, timer_at_reset, timer_coherent, trace_allowed,
};
use crate::peripheral::{Peripheral, PeripheralId};
use crate::route::{EventRoute, EventRouteTable, EventSource};

verus! {

/// Where the timer stands.
#[derive(Clone, Copy, Debug, PartialEq, Eq, Structural)]
pub enum TimerRunState {
    /// Stopped, with nothing that could be started.
    Idle,
    /// Stopped, with compare registers programmed.
    Configured,
    /// Counting; the waveform is being generated.
    Running,
}

/// What the controller holds.
pub ghost struct ControllerView {
    pub state: TimerRunState,
    pub timer: TimerRegisters,
    pub channels: Seq<ChannelLine>,
    pub routes: Seq<EventRoute>,
}

/// Owns the timer, the two toggle channels and the routes between them.
#[derive(Debug)]
#[allow(dead_code)]
pub struct ToneTimerController {
    state: TimerRunState,
    timer: TimerRegisters,
    timer_handle: Peripheral,
    channels_handle: Peripheral,
    routes_handle: Peripheral,
    channel_a: ChannelBinding,
    channel_b: ChannelBinding,
    routes: EventRouteTable,
}

/// Route `i` of the design: compare event `i` flips channel `i mod 2`, so that
/// each line is flipped twice per period.
pub open spec fn designed_route(i: u8, enabled: bool) -> EventRoute {
    EventRoute {
        event_source: EventSource::TimerCompare(i),
        task_sink: TaskSink::ChannelToggle(i % 2),
        enabled,
    }
}

/// The four routes of the design, all on or all off.
pub open spec fn designed_routes(enabled: bool) -> Seq<EventRoute> {
    seq![
        designed_route(0, enabled),
        designed_route(1, enabled),
        designed_route(2, enabled),
        designed_route(3, enabled),
    ]
}

/// The two channels of the design: the first starts low, the second high, so
/// that the bridge's legs never rest on the same rail.
pub open spec fn designed_channels(pin_a: u8, pin_b: u8, task_enabled: bool) -> Seq<ChannelLine> {
    seq![
        ChannelLine {
            channel: 0,
            pin: pin_a,
            initial_polarity: Level::Low,
            toggle_on_task: true,
            task_enabled,
        },
        ChannelLine {
            channel: 1,
            pin: pin_b,
            initial_polarity: Level::High,
            toggle_on_task: true,
            task_enabled,
        },
    ]
}

/// The timer registers that a configuration is written to, on a stopped timer.
pub open spec fn programmed(timer: TimerRegisters, config: TimerConfigView) -> TimerRegisters {
    TimerRegisters {
        prescaler: config.prescaler_exponent as u8,
        cc0: config.compare_rising as u16,
        cc1: config.compare_falling as u16,
        cc2: (config.period_ticks - 1) as u16,
        cc3: config.period_ticks as u16,
        auto_clear: true,
        ..timer
    }
}

/// Commands that bind the two channels and the four routes and set the timer
/// up, once.
pub open spec fn setup_commands(pin_a: u8, pin_b: u8) -> Seq<Command> {
    seq![
        Command::BindChannel { channel: 0, pin: pin_a, initial_polarity: Level::Low },
        Command::BindChannel { channel: 1, pin: pin_b, initial_polarity: Level::High },
        Command::BindRoute { route: 0, compare: 0, channel: 0 },
        Command::BindRoute { route: 1, compare: 1, channel: 1 },
        Command::BindRoute { route: 2, compare: 2, channel: 0 },
        Command::BindRoute { route: 3, compare: 3, channel: 1 },
        Command::SetUpTimer,
    ]
}

/// Commands after which nothing can flip an output.
pub open spec fn quiesce_commands() -> Seq<Command> {
    seq![
        Command::SetRouteEnabled { route: 0, enabled: false },
        Command::SetRouteEnabled { route: 1, enabled: false },
        Command::SetRouteEnabled { route: 2, enabled: false },
        Command::SetRouteEnabled { route: 3, enabled: false },
        Command::SetTaskEnabled { channel: 0, enabled: false },
        Command::SetTaskEnabled { channel: 1, enabled: false },
    ]
}

/// Commands that let the compare events flip the outputs again.
pub open spec fn arouse_commands() -> Seq<Command> {
    seq![
        Command::SetTaskEnabled { channel: 0, enabled: true },
        Command::SetTaskEnabled { channel: 1, enabled: true },
        Command::SetRouteEnabled { route: 0, enabled: true },
        Command::SetRouteEnabled { route: 1, enabled: true },
        Command::SetRouteEnabled { route: 2, enabled: true },
        Command::SetRouteEnabled { route: 3, enabled: true },
    ]
}

/// Commands that write a configuration: the prescaler, then the compare
/// registers in the order rising edge, falling edge, last tick, period, then
/// the shortcut that clears the counter at the period.
pub open spec fn write_commands(config: TimerConfigView) -> Seq<Command> {
    seq![
        Command::WritePrescaler { exponent: config.prescaler_exponent as u8 },
        Command::WriteCompare { slot: 0, value: config.compare_rising as u16 },
        Command::WriteCompare { slot: 1, value: config.compare_falling as u16 },
        Command::WriteCompare { slot: 2, value: (config.period_ticks - 1) as u16 },
        Command::WriteCompare { slot: 3, value: config.period_ticks as u16 },
        Command::ArmAutoClear,
    ]
}

/// Commands that bring a running timer to a halt at zero and silence its
/// routes.
pub open spec fn halt_commands() -> Seq<Command> {
    seq![Command::StopTimer, Command::ClearTimer] + quiesce_commands()
}

/// What `configure` hands back: from a running timer first the halt, then in
/// any case the writes.
pub open spec fn configure_commands(state: TimerRunState, config: TimerConfigView) -> Seq<
    Command,
> {
    if state is Running {
        halt_commands() + write_commands(config)
    } else {
        write_commands(config)
    }
}

/// What `start` hands back.
pub open spec fn start_commands() -> Seq<Command> {
    arouse_commands() + seq![Command::StartTimer]
}

/// What `stop` hands back: nothing when the timer is idle already.
pub open spec fn stop_commands(state: TimerRunState) -> Seq<Command> {
    if state is Running {
        seq![Command::StopTimer] + quiesce_commands()
    } else {
        Seq::empty()
    }
}

impl ControllerView {
    /// The controller holds the design's two channels on two different lines
    /// and its four routes; routes and task inputs are on exactly while the
    /// timer runs, and the timer runs exactly in state `Running`. Unless the
    /// state is `Idle`, the registers describe one period.
    pub open spec fn wf(self) -> bool {
        &&& self.channels.len() == 2
        &&& self.channels[0].pin != self.channels[1].pin
        &&& self.channels == designed_channels(
            self.channels[0].pin,
            self.channels[1].pin,
            self.state is Running,
        )
        &&& self.routes == designed_routes(self.state is Running)
        &&& self.timer.set_up
        &&& self.timer.running == (self.state is Running)
        &&& !(self.state is Idle) ==> timer_coherent(self.timer)
    }

    /// The hardware as the controller knows it, beside a driver line.
    pub open spec fn hardware(self, driver_enabled: bool) -> HardwareView {
        HardwareView {
            timer: self.timer,
            channels: self.channels,
            routes: self.routes,
            driver_enabled,
        }
    }

    /// The controller after `configure`.
    pub open spec fn configured(self, config: TimerConfigView) -> ControllerView {
        ControllerView {
            state: TimerRunState::Configured,
            timer: programmed(
                TimerRegisters {
                    running: false,
                    cleared: self.state is Running || self.timer.cleared,
                    ..self.timer
                },
                config,
            ),
            channels: designed_channels(self.channels[0].pin, self.channels[1].pin, false),
            routes: designed_routes(false),
        }
    }

    /// The controller after `start`.
    pub open spec fn started(self) -> ControllerView {
        ControllerView {
            state: TimerRunState::Running,
            timer: TimerRegisters { running: true, cleared: false, ..self.timer },
            channels: designed_channels(self.channels[0].pin, self.channels[1].pin, true),
            routes: designed_routes(true),
        }
    }

    /// The controller after `stop`.
    pub open spec fn stopped(self) -> ControllerView {
        ControllerView {
            state: TimerRunState::Idle,
            timer: TimerRegisters { running: false, ..self.timer },
            channels: designed_channels(self.channels[0].pin, self.channels[1].pin, false),
            routes: designed_routes(false),
        }
    }
}

impl ToneTimerController {
    /// What the controller holds.
    pub closed spec fn view(&self) -> ControllerView {
        ControllerView {
            state: self.state,
            timer: self.timer,
            channels: seq![self.channel_a@, self.channel_b@],
            routes: self.routes@,
        }
    }

    /// Takes the timer, the toggle channels, the route fabric and the two
    /// output lines, and binds the design's channels and routes. The timer is
    /// idle afterwards. Hands back the commands that do the same to the
    /// hardware after reset.
    pub fn new(
        timer: Peripheral,
        channels: Peripheral,
        routes: Peripheral,
        line_a: Pin,
        line_b: Pin,
    ) -> (made: (Self, Vec<Command>))
        requires
            timer@ == PeripheralId::TIMER0,
            channels@ == PeripheralId::GPIOTE,
            routes@ == PeripheralId::PPI,
            line_a.mode is PushPullOutput,
            line_b.mode is PushPullOutput,
            line_a.number != line_b.number,
        ensures
            made.0@ == (ControllerView {
                state: TimerRunState::Idle,
                timer: TimerRegisters { set_up: true, ..timer_at_reset() },
                channels: designed_channels(line_a.number, line_b.number, false),
                routes: designed_routes(false),
            }),
            made.0@.wf(),
            made.1@ == setup_commands(line_a.number, line_b.number),
            trace_allowed(hardware_at_reset(), made.1@),
            run(hardware_at_reset(), made.1@) == made.0@.hardware(false),
    {
        let pin_a = line_a.number;
        let pin_b = line_b.number;
        let channel_a = ChannelBinding::bind(0, line_a, Level::Low);
        let channel_b = ChannelBinding::bind(1, line_b, Level::High);
        let mut table = EventRouteTable::new();
        let _ = table.bind_route(EventSource::TimerCompare(0), &channel_a);
        let _ = table.bind_route(EventSource::TimerCompare(1), &channel_b);
        let _ = table.bind_route(EventSource::TimerCompare(2), &channel_a);
        let _ = table.bind_route(EventSource::TimerCompare(3), &channel_b);
        let mut commands: Vec<Command> = Vec::new();
        commands.push(Command::BindChannel { channel: 0, pin: pin_a, initial_polarity: Level::Low });
        commands.push(
            Command::BindChannel { channel: 1, pin: pin_b, initial_polarity: Level::High },
        );
        commands.push(Command::BindRoute { route: 0, compare: 0, channel: 0 });
        commands.push(Command::BindRoute { route: 1, compare: 1, channel: 1 });
        commands.push(Command::BindRoute { route: 2, compare: 2, channel: 0 });
        commands.push(Command::BindRoute { route: 3, compare: 3, channel: 1 });
        commands.push(Command::SetUpTimer);
        let controller = ToneTimerController {
            state: TimerRunState::Idle,
            timer: TimerRegisters {
                set_up: true,
                running: false,
                cleared: true,
                prescaler: 0,
                cc0: 0,
                cc1: 0,
                cc2: 0,
                cc3: 0,
                auto_clear: false,
            },
            timer_handle: timer,
            channels_handle: channels,
            routes_handle: routes,
            channel_a,
            channel_b,
            routes: table,
        };
        proof {
            assert(controller@.channels =~= designed_channels(pin_a, pin_b, false));
            assert(controller@.routes =~= designed_routes(false));
            assert(commands@ =~= setup_commands(pin_a, pin_b));
            lemma_setup_trace(pin_a, pin_b);
        }
        (controller, commands)
    }

    /// Programs the timer for a tone. A running timer is first stopped and
    /// cleared and its routes and task inputs are switched off, so that no
    /// register is written while anything can flip an output.
    pub fn configure(&mut self, config: &TimerConfig) -> (commands: Vec<Command>)
        requires
            old(self)@.wf(),
            old(self)@.state is Idle || old(self)@.state is Running,
        ensures
            final(self)@ == old(self)@.configured(config@),
            final(self)@.wf(),
            commands@ == configure_commands(old(self)@.state, config@),
            forall|driver_enabled: bool|
                #![trigger old(self)@.hardware(driver_enabled)]
                trace_allowed(old(self)@.hardware(driver_enabled), commands@) && run(
                    old(self)@.hardware(driver_enabled),
                    commands@,
                ) == final(self)@.hardware(driver_enabled),
    {
        let mut commands: Vec<Command> = Vec::new();
        if self.state == TimerRunState::Running {
            commands.push(Command::StopTimer);
            commands.push(Command::ClearTimer);
            self.timer.running = false;
            self.timer.cleared = true;
            self.quiesce(&mut commands);
            assert(commands@ =~= halt_commands());
        }
        let exponent = config.prescaler_exponent();
        let rising = config.compare_rising();
        let falling = config.compare_falling();
        let period = config.period_ticks();
        commands.push(Command::WritePrescaler { exponent });
        commands.push(Command::WriteCompare { slot: 0, value: rising });
        commands.push(Command::WriteCompare { slot: 1, value: falling });
        commands.push(Command::WriteCompare { slot: 2, value: period - 1 });
        commands.push(Command::WriteCompare { slot: 3, value: period });
        commands.push(Command::ArmAutoClear);
        self.timer.prescaler = exponent;
        self.timer.cc0 = rising;
        self.timer.cc1 = falling;
        self.timer.cc2 = period - 1;
        self.timer.cc3 = period;
        self.timer.auto_clear = true;
        self.state = TimerRunState::Configured;
        proof {
            assert(commands@ =~= configure_commands(old(self)@.state, config@));
            assert(self@.channels =~= old(self)@.configured(config@).channels);
            assert forall|driver_enabled: bool|
                #![trigger old(self)@.hardware(driver_enabled)]
                trace_allowed(old(self)@.hardware(driver_enabled), commands@) && run(
                    old(self)@.hardware(driver_enabled),
                    commands@,
                ) == self@.hardware(driver_enabled) by {
                lemma_configure_trace(old(self)@, config@, driver_enabled);
            }
        }
        commands
    }

    /// Lets the compare events flip the outputs and starts the timer. From
    /// here on the hardware generates the waveform by itself.
    pub fn start(&mut self) -> (commands: Vec<Command>)
        requires
            old(self)@.wf(),
            old(self)@.state is Configured,
        ensures
            final(self)@ == old(self)@.started(),
            final(self)@.wf(),
            commands@ == start_commands(),
            forall|driver_enabled: bool|
                #![trigger old(self)@.hardware(driver_enabled)]
                trace_allowed(old(self)@.hardware(driver_enabled), commands@) && run(
                    old(self)@.hardware(driver_enabled),
                    commands@,
                ) == final(self)@.hardware(driver_enabled),
    {
        let mut commands: Vec<Command> = Vec::new();
        self.arouse(&mut commands);
        commands.push(Command::StartTimer);
        self.timer.running = true;
        self.timer.cleared = false;
        self.state = TimerRunState::Running;
        proof {
            assert(commands@ =~= start_commands());
            assert forall|driver_enabled: bool|
                #![trigger old(self)@.hardware(driver_enabled)]
                trace_allowed(old(self)@.hardware(driver_enabled), commands@) && run(
                    old(self)@.hardware(driver_enabled),
                    commands@,
                ) == self@.hardware(driver_enabled) by {
                lemma_start_trace(old(self)@, driver_enabled);
            }
        }
        commands
    }

    /// Stops a running timer and switches its routes and task inputs off. On
    /// an idle timer it does nothing.
    pub fn stop(&mut self) -> (commands: Vec<Command>)
        requires
            old(self)@.wf(),
            old(self)@.state is Running || old(self)@.state is Idle,
        ensures
            final(self)@ == old(self)@.stopped(),
            final(self)@.wf(),
            commands@ == stop_commands(old(self)@.state),
            forall|driver_enabled: bool|
                #![trigger old(self)@.hardware(driver_enabled)]
                trace_allowed(old(self)@.hardware(driver_enabled), commands@) && run(
                    old(self)@.hardware(driver_enabled),
                    commands@,
                ) == final(self)@.hardware(driver_enabled),
    {
        let mut commands: Vec<Command> = Vec::new();
        if self.state == TimerRunState::Running {
            commands.push(Command::StopTimer);
            self.timer.running = false;
            self.quiesce(&mut commands);
            self.state = TimerRunState::Idle;
            proof {
                assert(commands@ =~= stop_commands(old(self)@.state));
            }
        } else {
            proof {
                assert(self@.channels =~= old(self)@.stopped().channels);
            }
        }
        proof {
            assert forall|driver_enabled: bool|
                #![trigger old(self)@.hardware(driver_enabled)]
                trace_allowed(old(self)@.hardware(driver_enabled), commands@) && run(
                    old(self)@.hardware(driver_enabled),
                    commands@,
                ) == self@.hardware(driver_enabled) by {
                lemma_stop_trace(old(self)@, driver_enabled);
            }
        }
        commands
    }

    /// Where the timer stands.
    pub fn state(&self) -> (state: TimerRunState)
        ensures
            state == self@.state,
    {
        self.state
    }

    /// A copy of what the timer holds.
    pub fn registers(&self) -> (timer: TimerRegisters)
        ensures
            timer == self@.timer,
    {
        self.timer
    }

    /// A copy of what toggle channel `channel` holds, if the design has it.
    pub fn channel(&self, channel: u8) -> (line: Option<ChannelLine>)
        ensures
            (channel as int) < self@.channels.len() ==> line == Some(self@.channels[channel as int]),
            (channel as int) >= self@.channels.len() ==> line.is_none(),
    {
        if channel == 0 {
            Some(self.channel_a.line())
        } else if channel == 1 {
            Some(self.channel_b.line())
        } else {
            None
        }
    }

    /// A copy of route `route`, if there is one.
    pub fn route(&self, route: u8) -> (found: Option<EventRoute>)
        ensures
            (route as int) < self@.routes.len() ==> found == Some(self@.routes[route as int]),
            (route as int) >= self@.routes.len() ==> found.is_none(),
    {
        self.routes.route(route)
    }

    fn quiesce(&mut self, commands: &mut Vec<Command>)
        requires
            old(self)@.routes == designed_routes(true),
            old(self)@.channels == designed_channels(
                old(self)@.channels[0].pin,
                old(self)@.channels[1].pin,
                true,
            ),
        ensures
            final(self)@ == (ControllerView {
                channels: designed_channels(
                    old(self)@.channels[0].pin,
                    old(self)@.channels[1].pin,
                    false,
                ),
                routes: designed_routes(false),
                ..old(self)@
            }),
            final(commands)@ == old(commands)@ + quiesce_commands(),
    {
        self.routes.disable(0);
        self.routes.disable(1);
        self.routes.disable(2);
        self.routes.disable(3);
        self.channel_a.disable_task();
        self.channel_b.disable_task();
        commands.push(Command::SetRouteEnabled { route: 0, enabled: false });
        commands.push(Command::SetRouteEnabled { route: 1, enabled: false });
        commands.push(Command::SetRouteEnabled { route: 2, enabled: false });
        commands.push(Command::SetRouteEnabled { route: 3, enabled: false });
        commands.push(Command::SetTaskEnabled { channel: 0, enabled: false });
        commands.push(Command::SetTaskEnabled { channel: 1, enabled: false });
        proof {
            assert(self@.routes =~= designed_routes(false));
            assert(self@.channels =~= designed_channels(
                old(self)@.channels[0].pin,
                old(self)@.channels[1].pin,
                false,
            ));
            assert(commands@ =~= old(commands)@ + quiesce_commands());
        }
    }

    fn arouse(&mut self, commands: &mut Vec<Command>)
        requires
            old(self)@.routes == designed_routes(false),
            old(self)@.channels == designed_channels(
                old(self)@.channels[0].pin,
                old(self)@.channels[1].pin,
                false,
            ),
        ensures
            final(self)@ == (ControllerView {
                channels: designed_channels(
                    old(self)@.channels[0].pin,
                    old(self)@.channels[1].pin,
                    true,
                ),
                routes: designed_routes(true),
                ..old(self)@
            }),
            final(commands)@ == old(commands)@ + arouse_commands(),
    {
        self.channel_a.enable_task();
        self.channel_b.enable_task();
        self.routes.enable(0);
        self.routes.enable(1);
        self.routes.enable(2);
        self.routes.enable(3);
        commands.push(Command::SetTaskEnabled { channel: 0, enabled: true });
        commands.push(Command::SetTaskEnabled { channel: 1, enabled: true });
        commands.push(Command::SetRouteEnabled { route: 0, enabled: true });
        commands.push(Command::SetRouteEnabled { route: 1, enabled: true });
        commands.push(Command::SetRouteEnabled { route: 2, enabled: true });
        commands.push(Command::SetRouteEnabled { route: 3, enabled: true });
        proof {
            assert(self@.routes =~= designed_routes(true));
            assert(self@.channels =~= designed_channels(
                old(self)@.channels[0].pin,
                old(self)@.channels[1].pin,
                true,
            ));
            assert(commands@ =~= old(commands)@ + arouse_commands());
        }
    }
}

/// From reset, the setup commands are each in order, and they leave the
/// hardware as a new controller holds it.
pub proof fn lemma_setup_trace(pin_a: u8, pin_b: u8)
    requires
        pin_a != pin_b,
    ensures
        trace_allowed(hardware_at_reset(), setup_commands(pin_a, pin_b)),
        run(hardware_at_reset(), setup_commands(pin_a, pin_b)) == (HardwareView {
            timer: TimerRegisters { set_up: true, ..timer_at_reset() },
            channels: designed_channels(pin_a, pin_b, false),
            routes: designed_routes(false),
            driver_enabled: false,
        }),
{
    reveal_with_fuel(run_upto, 8);
    reveal_with_fuel(allowed_upto, 8);
    let after = run(hardware_at_reset(), setup_commands(pin_a, pin_b));
    assert(after.channels =~= designed_channels(pin_a, pin_b, false));
    assert(after.routes =~= designed_routes(false));
}

/// The design's routes with the first `done` of them switched to `first` and
/// the others still at `rest`.
spec fn routes_partly(done: int, first: bool, rest: bool) -> Seq<EventRoute> {
    seq![
        designed_route(0, if done > 0 { first } else { rest }),
        designed_route(1, if done > 1 { first } else { rest }),
        designed_route(2, if done > 2 { first } else { rest }),
        designed_route(3, if done > 3 { first } else { rest }),
    ]
}

/// The design's channels with the task inputs of the first `done` of them
/// switched to `first` and the others still at `rest`.
spec fn channels_partly(pin_a: u8, pin_b: u8, done: int, first: bool, rest: bool) -> Seq<
    ChannelLine,
> {
    seq![
        ChannelLine {
            channel: 0,
            pin: pin_a,
            initial_polarity: Level::Low,
            toggle_on_task: true,
            task_enabled: if done > 0 { first } else { rest },
        },
        ChannelLine {
            channel: 1,
            pin: pin_b,
            initial_polarity: Level::High,
            toggle_on_task: true,
            task_enabled: if done > 1 { first } else { rest },
        },
    ]
}

/// One more command of a sequence: if the first `n - 1` commands are in order
/// and lead to `before`, and command `n` is in order there, then the first `n`
/// are in order and lead to where that command leads.
proof fn lemma_next(hw: HardwareView, commands: Seq<Command>, n: int, before: HardwareView)
    requires
        0 < n <= commands.len(),
        allowed_upto(hw, commands, n - 1),
        run_upto(hw, commands, n - 1) == before,
        allowed(before, commands[n - 1]),
    ensures
        allowed_upto(hw, commands, n),
        run_upto(hw, commands, n) == step(before, commands[n - 1]),
{
}

/// Switching one of the design's routes, the next in line.
proof fn lemma_route_next(
    hw: HardwareView,
    commands: Seq<Command>,
    n: int,
    before: HardwareView,
    route: u8,
    enabled: bool,
    rest: bool,
)
    requires
        0 < n <= commands.len(),
        allowed_upto(hw, commands, n - 1),
        run_upto(hw, commands, n - 1) == before,
        commands[n - 1] == (Command::SetRouteEnabled { route, enabled }),
        route < 4,
        before.routes == routes_partly(route as int, enabled, rest),
        enabled ==> !before.timer.running,
    ensures
        allowed_upto(hw, commands, n),
        run_upto(hw, commands, n) == (HardwareView {
            routes: routes_partly(route + 1, enabled, rest),
            ..before
        }),
{
    lemma_next(hw, commands, n, before);
    assert(step(before, commands[n - 1]).routes =~= routes_partly(route + 1, enabled, rest));
}

/// Switching the task input of one of the design's channels, the next in
/// line.
proof fn lemma_task_next(
    hw: HardwareView,
    commands: Seq<Command>,
    n: int,
    before: HardwareView,
    pin_a: u8,
    pin_b: u8,
    channel: u8,
    enabled: bool,
    rest: bool,
)
    requires
        0 < n <= commands.len(),
        allowed_upto(hw, commands, n - 1),
        run_upto(hw, commands, n - 1) == before,
        commands[n - 1] == (Command::SetTaskEnabled { channel, enabled }),
        channel < 2,
        before.channels == channels_partly(pin_a, pin_b, channel as int, enabled, rest),
        enabled ==> !before.timer.running,
    ensures
        allowed_upto(hw, commands, n),
        run_upto(hw, commands, n) == (HardwareView {
            channels: channels_partly(pin_a, pin_b, channel + 1, enabled, rest),
            ..before
        }),
{
    lemma_next(hw, commands, n, before);
    assert(step(before, commands[n - 1]).channels =~= channels_partly(
        pin_a,
        pin_b,
        channel + 1,
        enabled,
        rest,
    ));
}

/// Switching the design's routes and task inputs off is in order in any
/// state that has them.
proof fn lemma_quiesce_trace(hw: HardwareView, pin_a: u8, pin_b: u8, enabled: bool)
    requires
        hw.routes == designed_routes(enabled),
        hw.channels == designed_channels(pin_a, pin_b, enabled),
    ensures
        trace_allowed(hw, quiesce_commands()),
        run(hw, quiesce_commands()) == (HardwareView {
            routes: designed_routes(false),
            channels: designed_channels(pin_a, pin_b, false),
            ..hw
        }),
        quiet(run(hw, quiesce_commands())),
{
    let commands = quiesce_commands();
    assert(hw.routes =~= routes_partly(0, false, enabled));
    assert(hw.channels =~= channels_partly(pin_a, pin_b, 0, false, enabled));
    lemma_route_next(hw, commands, 1, hw, 0, false, enabled);
    lemma_route_next(hw, commands, 2, run_upto(hw, commands, 1), 1, false, enabled);
    lemma_route_next(hw, commands, 3, run_upto(hw, commands, 2), 2, false, enabled);
    lemma_route_next(hw, commands, 4, run_upto(hw, commands, 3), 3, false, enabled);
    lemma_task_next(hw, commands, 5, run_upto(hw, commands, 4), pin_a, pin_b, 0, false, enabled);
    lemma_task_next(hw, commands, 6, run_upto(hw, commands, 5), pin_a, pin_b, 1, false, enabled);
    let after = run(hw, commands);
    assert(after.routes =~= designed_routes(false));
    assert(after.channels =~= designed_channels(pin_a, pin_b, false));
}

/// Switching the design's routes and task inputs on is in order while the
/// timer stands still.
proof fn lemma_arouse_trace(hw: HardwareView, pin_a: u8, pin_b: u8)
    requires
        hw.routes == designed_routes(false),
        hw.channels == designed_channels(pin_a, pin_b, false),
        !hw.timer.running,
    ensures
        trace_allowed(hw, arouse_commands()),
        run(hw, arouse_commands()) == (HardwareView {
            routes: designed_routes(true),
            channels: designed_channels(pin_a, pin_b, true),
            ..hw
        }),
{
    let commands = arouse_commands();
    assert(hw.routes =~= routes_partly(0, true, false));
    assert(hw.channels =~= channels_partly(pin_a, pin_b, 0, true, false));
    lemma_task_next(hw, commands, 1, hw, pin_a, pin_b, 0, true, false);
    lemma_task_next(hw, commands, 2, run_upto(hw, commands, 1), pin_a, pin_b, 1, true, false);
    lemma_route_next(hw, commands, 3, run_upto(hw, commands, 2), 0, true, false);
    lemma_route_next(hw, commands, 4, run_upto(hw, commands, 3), 1, true, false);
    lemma_route_next(hw, commands, 5, run_upto(hw, commands, 4), 2, true, false);
    lemma_route_next(hw, commands, 6, run_upto(hw, commands, 5), 3, true, false);
    let after = run(hw, commands);
    assert(after.routes =~= designed_routes(true));
    assert(after.channels =~= designed_channels(pin_a, pin_b, true));
}

/// Writing a configuration is in order while the timer stands still and
/// nothing can flip an output, and it leaves registers that describe one
/// period.
pub proof fn lemma_write_trace(hw: HardwareView, config: TimerConfigView)
    requires
        !hw.timer.running,
        quiet(hw),
        config.fits_registers(),
    ensures
        trace_allowed(hw, write_commands(config)),
        run(hw, write_commands(config)) == (HardwareView {
            timer: programmed(hw.timer, config),
            ..hw
        }),
        hw.timer.set_up ==> timer_coherent(programmed(hw.timer, config)),
{
    reveal_with_fuel(run_upto, 7);
    reveal_with_fuel(allowed_upto, 7);
}

/// Halting a running timer is in order, and leaves it stopped at zero with
/// nothing that can flip an output.
pub proof fn lemma_halt_trace(hw: HardwareView, pin_a: u8, pin_b: u8)
    requires
        hw.routes == designed_routes(true),
        hw.channels == designed_channels(pin_a, pin_b, true),
    ensures
        trace_allowed(hw, halt_commands()),
        run(hw, halt_commands()) == (HardwareView {
            timer: TimerRegisters { running: false, cleared: true, ..hw.timer },
            routes: designed_routes(false),
            channels: designed_channels(pin_a, pin_b, false),
            ..hw
        }),
        quiet(run(hw, halt_commands())),
{
    let first = seq![Command::StopTimer, Command::ClearTimer];
    assert(trace_allowed(hw, first) && run(hw, first) == (HardwareView {
        timer: TimerRegisters { running: false, cleared: true, ..hw.timer },
        ..hw
    })) by {
        reveal_with_fuel(run_upto, 3);
        reveal_with_fuel(allowed_upto, 3);
    }
    lemma_quiesce_trace(run(hw, first), pin_a, pin_b, true);
    lemma_run_concat(hw, first, quiesce_commands());
}

/// The commands of `configure` are each in order in the state they meet, and
/// they leave the hardware as the controller holds it afterwards. In
/// particular every register is written while the timer stands still and
/// nothing can flip an output.
pub proof fn lemma_configure_trace(
    controller: ControllerView,
    config: TimerConfigView,
    driver_enabled: bool,
)
    requires
        controller.wf(),
        controller.state is Idle || controller.state is Running,
        config.fits_registers(),
    ensures
        trace_allowed(
            controller.hardware(driver_enabled),
            configure_commands(controller.state, config),
        ),
        run(controller.hardware(driver_enabled), configure_commands(controller.state, config))
            == controller.configured(config).hardware(driver_enabled),
        controller.configured(config).wf(),
{
    let before = controller.hardware(driver_enabled);
    let pin_a = controller.channels[0].pin;
    let pin_b = controller.channels[1].pin;
    if controller.state is Running {
        lemma_halt_trace(before, pin_a, pin_b);
        lemma_write_trace(run(before, halt_commands()), config);
        lemma_run_concat(before, halt_commands(), write_commands(config));
    } else {
        assert(quiet(before));
        lemma_write_trace(before, config);
    }
}

/// The commands of `start` are each in order on a configured controller, and
/// they leave the hardware as the controller holds it afterwards.
pub proof fn lemma_start_trace(controller: ControllerView, driver_enabled: bool)
    requires
        controller.wf(),
        controller.state is Configured,
    ensures
        trace_allowed(controller.hardware(driver_enabled), start_commands()),
        run(controller.hardware(driver_enabled), start_commands()) == controller.started().hardware(
            driver_enabled,
        ),
        controller.started().wf(),
{
    let before = controller.hardware(driver_enabled);
    let pin_a = controller.channels[0].pin;
    let pin_b = controller.channels[1].pin;
    let last = seq![Command::StartTimer];
    lemma_arouse_trace(before, pin_a, pin_b);
    let aroused = run(before, arouse_commands());
    assert(trace_allowed(aroused, last) && run(aroused, last) == controller.started().hardware(
        driver_enabled,
    )) by {
        reveal_with_fuel(run_upto, 2);
        reveal_with_fuel(allowed_upto, 2);
    }
    lemma_run_concat(before, arouse_commands(), last);
}

/// The commands of `stop` are each in order, and they leave the hardware as
/// the controller holds it afterwards.
pub proof fn lemma_stop_trace(controller: ControllerView, driver_enabled: bool)
    requires
        controller.wf(),
        controller.state is Running || controller.state is Idle,
    ensures
        trace_allowed(controller.hardware(driver_enabled), stop_commands(controller.state)),
        run(controller.hardware(driver_enabled), stop_commands(controller.state))
            == controller.stopped().hardware(driver_enabled),
        controller.stopped().wf(),
{
    let before = controller.hardware(driver_enabled);
    let pin_a = controller.channels[0].pin;
    let pin_b = controller.channels[1].pin;
    if controller.state is Running {
        let first = seq![Command::StopTimer];
        assert(trace_allowed(before, first) && run(before, first) == (HardwareView {
            timer: TimerRegisters { running: false, ..before.timer },
            ..before
        })) by {
            reveal_with_fuel(run_upto, 2);
            reveal_with_fuel(allowed_upto, 2);
        }
        lemma_quiesce_trace(run(before, first), pin_a, pin_b, true);
        lemma_run_concat(before, first, quiesce_commands());
    } else {
        assert(controller.stopped().hardware(driver_enabled).channels =~= before.channels);
    }
}

} // verus!
