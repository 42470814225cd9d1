//! Starting and stopping a tone.
//!
//! The engine owns the timer controller and the driver's power gate. A tone
//! is started by programming the timer, starting it and only then waking the
//! driver; it is stopped by putting the driver to sleep and only then
//! stopping the timer.
use vstd::prelude::*;
use crate::frequency::{
    ConfigError, TimerConfigView, ToneRequest, lemma_computed_fits_registers, timer_config_spec,
};
use crate::gpio::{BeeperMotorPins, Level};
use crate::hardware::{
    Command, HardwareView, allowed_upto, hardware_at_reset, lemma_quiet_kept, lemma_registers_kept,
    lemma_run_concat, lemma_run_upto_concat, quiet, run, run_upto, tone_registers,
    trace_allowed, switches_on, writes_register,
};
use crate::peripheral::{Peripheral, PeripheralId};
use crate::power::PowerGate;
use crate::timer::{
    ControllerView, TimerRunState, ToneTimerController, configure_commands, halt_commands,
    lemma_configure_trace, lemma_halt_trace, lemma_setup_trace, lemma_start_trace,
    lemma_stop_trace, lemma_write_trace, programmed, setup_commands, start_commands,
    stop_commands, write_commands,
};

verus! {

/// Frequency of the clock that feeds the timer.
pub const TIMER_CLOCK_HZ: u32 = 16_000_000;

/// Width of the timer's counter in bits.
pub const TIMER_BIT_WIDTH: u32 = 16;

/// What the engine holds.
pub ghost struct EngineView {
    pub controller: ControllerView,
    pub driver_enabled: bool,
}

/// Drives a speaker between the two legs of a bridge driver.
#[derive(Debug)]
pub struct ToneEngine {
    controller: ToneTimerController,
    gate: PowerGate,
}

/// What `start_tone` hands back for a configuration: the commands of
/// `configure`, those of `start`, and last the one that wakes the driver.
pub open spec fn start_tone_commands(state: TimerRunState, config: TimerConfigView) -> Seq<
    Command,
> {
    configure_commands(state, config) + start_commands() + seq![
        Command::SetDriverEnabled { enabled: true },
    ]
}

/// What `stop_tone` hands back: first the command that puts the driver to
/// sleep, then those of `stop`; nothing when no tone sounds.
pub open spec fn stop_tone_commands(state: TimerRunState) -> Seq<Command> {
    if state is Running {
        seq![Command::SetDriverEnabled { enabled: false }] + stop_commands(state)
    } else {
        Seq::empty()
    }
}

impl EngineView {
    /// Between two operations the timer is idle or running, and the driver is
    /// awake exactly while the timer runs.
    pub open spec fn wf(self) -> bool {
        &&& self.controller.wf()
        &&& self.controller.state is Idle || self.controller.state is Running
        &&& self.driver_enabled == (self.controller.state is Running)
    }

    /// The hardware as the engine knows it.
    pub open spec fn hardware(self) -> HardwareView {
        self.controller.hardware(self.driver_enabled)
    }

    /// The engine while a tone of the given configuration sounds.
    pub open spec fn sounding(self, config: TimerConfigView) -> EngineView {
        EngineView { controller: self.controller.configured(config).started(), driver_enabled: true }
    }

    /// The engine after the tone was stopped.
    pub open spec fn silenced(self) -> EngineView {
        EngineView { controller: self.controller.stopped(), driver_enabled: false }
    }
}

impl ToneEngine {
    /// What the engine holds.
    pub closed spec fn view(&self) -> EngineView {
        EngineView { controller: self.controller@, driver_enabled: self.gate@ }
    }

    /// Takes the timer, the toggle channels, the route fabric and the three
    /// lines of the bridge driver. The two input lines become outputs that
    /// toggle channels 0 and 1 drive; the sleep line becomes the power gate,
    /// low. Hands back the commands that bind channels and routes on the
    /// hardware after reset.
    pub fn new(
        timer: Peripheral,
        channels: Peripheral,
        routes: Peripheral,
        pins: BeeperMotorPins,
    ) -> (made: (Self, Vec<Command>))
        requires
            timer@ == PeripheralId::TIMER0,
            channels@ == PeripheralId::GPIOTE,
            routes@ == PeripheralId::PPI,
        ensures
            made.0@.wf(),
            made.0@.controller.state is Idle,
            made.1@ == setup_commands(29, 30),
            trace_allowed(hardware_at_reset(), made.1@),
            run(hardware_at_reset(), made.1@) == made.0@.hardware(),
    {
        let sleep = pins.motor_nsleep.into_push_pull_output(Level::Low).degrade();
        let line_a = pins.motor_in1.into_push_pull_output(Level::Low).degrade();
        let line_b = pins.motor_in2.into_push_pull_output(Level::Low).degrade();
        let (controller, commands) = ToneTimerController::new(
            timer,
            channels,
            routes,
            line_a,
            line_b,
        );
        let gate = PowerGate::new(sleep);
        proof {
            lemma_setup_trace(29, 30);
        }
        (ToneEngine { controller, gate }, commands)
    }

    /// Starts a tone, or changes the one that sounds.
    ///
    /// The request is checked before anything changes: on an error the engine
    /// is as it was and there is nothing to carry out. Otherwise the timer is
    /// programmed, which halts it first if it runs, then started, and last the
    /// driver is woken.
    pub fn start_tone(&mut self, frequency_hz: u32, duty_percent: u32) -> (result: Result<
        Vec<Command>,
        ConfigError,
    >)
        requires
            old(self)@.wf(),
        ensures
            final(self)@.wf(),
            match timer_config_spec(
                frequency_hz as int,
                duty_percent as int,
                TIMER_CLOCK_HZ as int,
                TIMER_BIT_WIDTH as int,
            ) {
                Ok(config) => {
                    &&& result matches Ok(commands)
                    &&& commands@ == start_tone_commands(old(self)@.controller.state, config)
                    &&& final(self)@ == old(self)@.sounding(config)
                    &&& trace_allowed(old(self)@.hardware(), commands@)
                    &&& run(old(self)@.hardware(), commands@) == final(self)@.hardware()
                },
                Err(e) => result == Err::<Vec<Command>, ConfigError>(e) && final(self)@ == old(
                    self,
                )@,
            },
    {
        let request = ToneRequest { frequency_hz, duty_percent };
        let config = match request.timer_config(TIMER_CLOCK_HZ, TIMER_BIT_WIDTH) {
            Ok(config) => config,
            Err(e) => {
                return Err(e);
            },
        };
        let mut commands = self.controller.configure(&config);
        let mut starting = self.controller.start();
        commands.append(&mut starting);
        self.gate.enable();
        commands.push(Command::SetDriverEnabled { enabled: true });
        proof {
            assert(commands@ =~= start_tone_commands(old(self)@.controller.state, config@));
            lemma_computed_fits_registers(
                frequency_hz as int,
                duty_percent as int,
                TIMER_CLOCK_HZ as int,
                TIMER_BIT_WIDTH as int,
            );
            lemma_start_tone_trace(old(self)@, config@);
        }
        Ok(commands)
    }

    /// Stops the tone: puts the driver to sleep, then stops the timer and
    /// switches the routes off. Does nothing when no tone sounds.
    pub fn stop_tone(&mut self) -> (commands: Vec<Command>)
        requires
            old(self)@.wf(),
        ensures
            final(self)@.wf(),
            final(self)@ == old(self)@.silenced(),
            commands@ == stop_tone_commands(old(self)@.controller.state),
            trace_allowed(old(self)@.hardware(), commands@),
            run(old(self)@.hardware(), commands@) == final(self)@.hardware(),
    {
        let mut commands: Vec<Command> = Vec::new();
        if self.gate.is_enabled() {
            self.gate.disable();
            commands.push(Command::SetDriverEnabled { enabled: false });
        }
        let mut stopping = self.controller.stop();
        commands.append(&mut stopping);
        proof {
            assert(commands@ =~= stop_tone_commands(old(self)@.controller.state));
            lemma_stop_tone_trace(old(self)@);
        }
        commands
    }

    /// Whether a tone sounds.
    pub fn is_sounding(&self) -> (sounding: bool)
        ensures
            sounding == (self@.controller.state is Running),
    {
        self.controller.state() == TimerRunState::Running
    }

    /// The timer controller, to look at.
    pub fn controller(&self) -> (controller: &ToneTimerController)
        ensures
            controller@ == self@.controller,
    {
        &self.controller
    }

    /// Whether the driver is awake.
    pub fn driver_enabled(&self) -> (enabled: bool)
        ensures
            enabled == self@.driver_enabled,
    {
        self.gate.is_enabled()
    }
}

/// The commands of `start_tone` are each in order in the state they meet,
/// whether a tone sounds already or not, and they leave the hardware as the
/// engine holds it afterwards: no register is written while the timer runs or
/// a route is on, and the driver is woken only once the timer runs.
pub proof fn lemma_start_tone_trace(engine: EngineView, config: TimerConfigView)
    requires
        engine.wf(),
        config.fits_registers(),
    ensures
        trace_allowed(engine.hardware(), start_tone_commands(engine.controller.state, config)),
        run(engine.hardware(), start_tone_commands(engine.controller.state, config))
            == engine.sounding(config).hardware(),
        engine.sounding(config).wf(),
{
    let before = engine.hardware();
    let configuring = configure_commands(engine.controller.state, config);
    let waking = seq![Command::SetDriverEnabled { enabled: true }];
    let configured = engine.controller.configured(config);
    lemma_configure_trace(engine.controller, config, engine.driver_enabled);
    lemma_start_trace(configured, engine.driver_enabled);
    lemma_run_concat(before, configuring, start_commands());
    let started = run(before, configuring + start_commands());
    assert(trace_allowed(started, waking) && run(started, waking) == engine.sounding(
        config,
    ).hardware()) by {
        reveal_with_fuel(run_upto, 2);
        reveal_with_fuel(allowed_upto, 2);
    }
    lemma_run_concat(before, configuring + start_commands(), waking);
}

/// The commands of `stop_tone` are each in order in the state they meet, and
/// they leave the hardware as the engine holds it afterwards.
pub proof fn lemma_stop_tone_trace(engine: EngineView)
    requires
        engine.wf(),
    ensures
        trace_allowed(engine.hardware(), stop_tone_commands(engine.controller.state)),
        run(engine.hardware(), stop_tone_commands(engine.controller.state))
            == engine.silenced().hardware(),
        engine.silenced().wf(),
{
    let before = engine.hardware();
    lemma_stop_trace(engine.controller, false);
    if engine.controller.state is Running {
        let first = seq![Command::SetDriverEnabled { enabled: false }];
        assert(trace_allowed(before, first) && run(before, first)
            == engine.controller.hardware(false)) by {
            reveal_with_fuel(run_upto, 2);
            reveal_with_fuel(allowed_upto, 2);
        }
        lemma_run_concat(before, first, stop_commands(engine.controller.state));
    } else {
        assert(engine.silenced().hardware().channels =~= before.channels);
    }
}

/// Changing a tone while it sounds never shows the outputs a half-written
/// period. Of the 22 commands, the first eight halt the timer and switch
/// routes and task inputs off, and up to there the registers hold the old
/// tone entire; through the six writes that follow nothing can flip an
/// output; and from the last write on, while routes and task inputs are
/// switched on again and the timer is started, the registers hold the new
/// tone entire.
pub proof fn lemma_retune_never_stale(engine: EngineView, config: TimerConfigView, n: int)
    requires
        engine.wf(),
        engine.controller.state is Running,
        config.fits_registers(),
        0 <= n <= 22,
    ensures
        ({
            let commands = start_tone_commands(engine.controller.state, config);
            let during = run_upto(engine.hardware(), commands, n);
            &&& commands.len() == 22
            &&& n <= 8 ==> tone_registers(during.timer) == tone_registers(engine.controller.timer)
            &&& 8 <= n <= 14 ==> quiet(during)
            &&& n >= 14 ==> tone_registers(during.timer) == tone_registers(
                programmed(engine.controller.timer, config),
            )
        }),
{
    let before = engine.hardware();
    let halting = halt_commands();
    let writing = write_commands(config);
    let waking = start_commands() + seq![Command::SetDriverEnabled { enabled: true }];
    let commands = start_tone_commands(engine.controller.state, config);
    assert(commands =~= halting + (writing + waking));
    assert(halting.len() == 8 && writing.len() == 6 && waking.len() == 8);
    lemma_halt_trace(before, engine.controller.channels[0].pin, engine.controller.channels[1].pin);
    let halted = run(before, halting);
    lemma_write_trace(halted, config);
    let written = run(halted, writing);
    lemma_run_upto_concat(before, halting, writing + waking, n);
    if n <= 8 {
        assert forall|i: int| 0 <= i < n implies !writes_register(#[trigger] halting[i]) by {}
        lemma_registers_kept(before, halting, n);
    }
    if n >= 8 {
        lemma_run_upto_concat(halted, writing, waking, n - 8);
        if n <= 14 {
            assert forall|i: int| 0 <= i < n - 8 implies !switches_on(#[trigger] writing[i]) by {}
            lemma_quiet_kept(halted, writing, n - 8);
        }
        if n >= 14 {
            assert forall|i: int| 0 <= i < n - 14 implies !writes_register(
                #[trigger] waking[i],
            ) by {}
            lemma_registers_kept(written, waking, n - 14);
        }
    }
}

} // verus!
