//! The registers the tone engine programs, the commands that change them, and
//! what a sequence of commands does to them.
//!
//! The engine itself touches no register. Each of its operations hands back
//! the commands to carry out, in order; this module says what the hardware
//! holds after each of them and which command is in order in which state.
use vstd::prelude::*;
use crate::channel::{ChannelLine, TaskSink};
use crate::gpio::Level;
use crate::route::{all_disabled, with_route_enabled, EventRoute, EventSource};

verus! {

/// One register write or task trigger.
#[derive(Clone, Copy, Debug, PartialEq, Eq, Structural)]
pub enum Command {
    /// Give toggle channel `channel` the line `pin`, to flip on each task,
    /// starting at `initial_polarity`.
    BindChannel { channel: u8, pin: u8, initial_polarity: Level },
    /// Write 1 or 0 to the task input of toggle channel `channel`.
    SetTaskEnabled { channel: u8, enabled: bool },
    /// Point route `route` from compare event `compare` to the toggle task of
    /// channel `channel`.
    BindRoute { route: u8, compare: u8, channel: u8 },
    /// Switch route `route` on or off.
    SetRouteEnabled { route: u8, enabled: bool },
    /// Select timer mode and a width of 16 bits.
    SetUpTimer,
    /// Trigger the timer's stop task.
    StopTimer,
    /// Trigger the timer's clear task.
    ClearTimer,
    /// Trigger the timer's start task.
    StartTimer,
    /// Write the prescaler register.
    WritePrescaler { exponent: u8 },
    /// Write compare register `slot`.
    WriteCompare { slot: u8, value: u16 },
    /// Arm the shortcut from the last compare event to the clear task.
    ArmAutoClear,
    /// Raise or lower the driver's enable line.
    SetDriverEnabled { enabled: bool },
}

/// What the timer holds.
#[derive(Clone, Copy, Debug, PartialEq, Eq, Structural)]
pub struct TimerRegisters {
    /// Timer mode and width have been selected.
    pub set_up: bool,
    /// The counter is counting.
    pub running: bool,
    /// The counter has been cleared and has not counted since.
    pub cleared: bool,
    pub prescaler: u8,
    pub cc0: u16,
    pub cc1: u16,
    pub cc2: u16,
    pub cc3: u16,
    /// The last compare event clears the counter.
    pub auto_clear: bool,
}

/// Everything the tone engine's commands can change.
pub ghost struct HardwareView {
    pub timer: TimerRegisters,
    /// The toggle channels bound so far; a channel's number is its place.
    pub channels: Seq<ChannelLine>,
    /// The routes bound so far; a route's number is its place.
    pub routes: Seq<EventRoute>,
    pub driver_enabled: bool,
}

/// The timer after reset.
pub open spec fn timer_at_reset() -> TimerRegisters {
    TimerRegisters {
        set_up: false,
        running: false,
        cleared: true,
        prescaler: 0,
        cc0: 0,
        cc1: 0,
        cc2: 0,
        cc3: 0,
        auto_clear: false,
    }
}

/// The hardware after reset: nothing bound, the timer stopped, the driver
/// asleep.
pub open spec fn hardware_at_reset() -> HardwareView {
    HardwareView {
        timer: timer_at_reset(),
        channels: Seq::empty(),
        routes: Seq::empty(),
        driver_enabled: false,
    }
}

/// The timer with one compare register written; a slot above 3 changes
/// nothing.
pub open spec fn with_compare(timer: TimerRegisters, slot: u8, value: u16) -> TimerRegisters {
    if slot == 0 {
        TimerRegisters { cc0: value, ..timer }
    } else if slot == 1 {
        TimerRegisters { cc1: value, ..timer }
    } else if slot == 2 {
        TimerRegisters { cc2: value, ..timer }
    } else if slot == 3 {
        TimerRegisters { cc3: value, ..timer }
    } else {
        timer
    }
}

/// The channels with the task input of channel `channel` switched; any other
/// number changes nothing.
pub open spec fn with_task_enabled(channels: Seq<ChannelLine>, channel: int, enabled: bool) -> Seq<
    ChannelLine,
> {
    if 0 <= channel < channels.len() {
        channels.update(channel, ChannelLine { task_enabled: enabled, ..channels[channel] })
    } else {
        channels
    }
}

/// No channel's task input accepts triggers.
pub open spec fn tasks_disabled(channels: Seq<ChannelLine>) -> bool {
    forall|i: int| 0 <= i < channels.len() ==> !(#[trigger] channels[i]).task_enabled
}

/// No line of the channels bound so far is `pin`.
pub open spec fn pin_unbound(channels: Seq<ChannelLine>, pin: u8) -> bool {
    forall|i: int| 0 <= i < channels.len() ==> (#[trigger] channels[i]).pin != pin
}

/// Nothing can flip an output: every route is off and every task input
/// ignores triggers.
pub open spec fn quiet(hw: HardwareView) -> bool {
    all_disabled(hw.routes) && tasks_disabled(hw.channels)
}

/// The compare registers describe one period: rising edge, then falling edge,
/// then the last tick, then the period itself, at which the counter clears.
pub open spec fn timer_coherent(timer: TimerRegisters) -> bool {
    &&& timer.set_up
    &&& timer.auto_clear
    &&& timer.cc0 < timer.cc1 < timer.cc3
    &&& timer.cc2 + 1 == timer.cc3
}

/// What the hardware holds after one command.
pub open spec fn step(hw: HardwareView, command: Command) -> HardwareView {
    match command {
        Command::BindChannel { channel, pin, initial_polarity } => HardwareView {
            channels: hw.channels.push(
                ChannelLine {
                    channel,
                    pin,
                    initial_polarity,
                    toggle_on_task: true,
                    task_enabled: false,
                },
            ),
            ..hw
        },
        Command::SetTaskEnabled { channel, enabled } => HardwareView {
            channels: with_task_enabled(hw.channels, channel as int, enabled),
            ..hw
        },
        Command::BindRoute { route, compare, channel } => HardwareView {
            routes: hw.routes.push(
                EventRoute {
                    event_source: EventSource::TimerCompare(compare),
                    task_sink: TaskSink::ChannelToggle(channel),
                    enabled: false,
                },
            ),
            ..hw
        },
        Command::SetRouteEnabled { route, enabled } => HardwareView {
            routes: with_route_enabled(hw.routes, route as int, enabled),
            ..hw
        },
        Command::SetUpTimer => HardwareView {
            timer: TimerRegisters { set_up: true, ..hw.timer },
            ..hw
        },
        Command::StopTimer => HardwareView {
            timer: TimerRegisters { running: false, ..hw.timer },
            ..hw
        },
        Command::ClearTimer => HardwareView {
            timer: TimerRegisters { cleared: !hw.timer.running, ..hw.timer },
            ..hw
        },
        Command::StartTimer => HardwareView {
            timer: TimerRegisters { running: true, cleared: false, ..hw.timer },
            ..hw
        },
        Command::WritePrescaler { exponent } => HardwareView {
            timer: TimerRegisters { prescaler: exponent, ..hw.timer },
            ..hw
        },
        Command::WriteCompare { slot, value } => HardwareView {
            timer: with_compare(hw.timer, slot, value),
            ..hw
        },
        Command::ArmAutoClear => HardwareView {
            timer: TimerRegisters { auto_clear: true, ..hw.timer },
            ..hw
        },
        Command::SetDriverEnabled { enabled } => HardwareView { driver_enabled: enabled, ..hw },
    }
}

/// Whether a command is in order in a state.
///
/// A channel is bound under the next free number, to a line that no channel
/// has yet. A route is bound under the next free number, from one of the four
/// compare events to a channel that is bound. Routes and task inputs are
/// switched on only while the timer stands still. Timer registers are written
/// only while the timer stands still and nothing can flip an output. The timer
/// is started only on registers that describe one period. The driver is woken
/// only while the timer runs.
pub open spec fn allowed(hw: HardwareView, command: Command) -> bool {
    match command {
        Command::BindChannel { channel, pin, initial_polarity } => {
            &&& channel == hw.channels.len()
            &&& pin_unbound(hw.channels, pin)
            &&& !hw.timer.running
        },
        Command::SetTaskEnabled { channel, enabled } => {
            &&& (channel as int) < hw.channels.len()
            &&& enabled ==> !hw.timer.running
        },
        Command::BindRoute { route, compare, channel } => {
            &&& route == hw.routes.len()
            &&& compare < 4
            &&& (channel as int) < hw.channels.len()
        },
        Command::SetRouteEnabled { route, enabled } => {
            &&& (route as int) < hw.routes.len()
            &&& enabled ==> !hw.timer.running
        },
        Command::SetUpTimer => !hw.timer.running && quiet(hw),
        Command::StopTimer => true,
        Command::ClearTimer => !hw.timer.running,
        Command::StartTimer => timer_coherent(hw.timer),
        Command::WritePrescaler { exponent } => !hw.timer.running && quiet(hw),
        Command::WriteCompare { slot, value } => slot < 4 && !hw.timer.running && quiet(hw),
        Command::ArmAutoClear => !hw.timer.running && quiet(hw),
        Command::SetDriverEnabled { enabled } => enabled ==> hw.timer.running,
    }
}

/// What the hardware holds after the first `n` commands of a sequence.
pub open spec fn run_upto(hw: HardwareView, commands: Seq<Command>, n: int) -> HardwareView
    decreases n,
{
    if n <= 0 {
        hw
    } else {
        step(run_upto(hw, commands, n - 1), commands[n - 1])
    }
}

/// What the hardware holds after a sequence of commands.
pub open spec fn run(hw: HardwareView, commands: Seq<Command>) -> HardwareView {
    run_upto(hw, commands, commands.len() as int)
}

/// Each of the first `n` commands is in order in the state it meets.
pub open spec fn allowed_upto(hw: HardwareView, commands: Seq<Command>, n: int) -> bool
    decreases n,
{
    if n <= 0 {
        true
    } else {
        allowed_upto(hw, commands, n - 1) && allowed(
            run_upto(hw, commands, n - 1),
            commands[n - 1],
        )
    }
}

/// Each command of the sequence is in order in the state it meets.
pub open spec fn trace_allowed(hw: HardwareView, commands: Seq<Command>) -> bool {
    allowed_upto(hw, commands, commands.len() as int)
}

/// While the timer runs, its registers describe one period.
pub open spec fn glitch_free(hw: HardwareView) -> bool {
    hw.timer.running ==> timer_coherent(hw.timer)
}

/// A command that is in order leaves the hardware free of glitches.
pub proof fn lemma_step_glitch_free(hw: HardwareView, command: Command)
    requires
        glitch_free(hw),
        allowed(hw, command),
    ensures
        glitch_free(step(hw, command)),
{
}

/// Along a sequence of commands that are each in order, the hardware is free
/// of glitches after every one of them.
pub proof fn lemma_trace_glitch_free(hw: HardwareView, commands: Seq<Command>, n: int)
    requires
        glitch_free(hw),
        trace_allowed(hw, commands),
        0 <= n <= commands.len(),
    ensures
        allowed_upto(hw, commands, n),
        glitch_free(run_upto(hw, commands, n)),
{
    lemma_allowed_prefix(hw, commands, commands.len() as int, n);
    lemma_prefix_glitch_free(hw, commands, n);
}

proof fn lemma_allowed_prefix(hw: HardwareView, commands: Seq<Command>, m: int, n: int)
    requires
        allowed_upto(hw, commands, m),
        0 <= n <= m,
    ensures
        allowed_upto(hw, commands, n),
    decreases m - n,
{
    if n < m {
        lemma_allowed_prefix(hw, commands, m - 1, n);
    }
}

proof fn lemma_prefix_glitch_free(hw: HardwareView, commands: Seq<Command>, n: int)
    requires
        glitch_free(hw),
        allowed_upto(hw, commands, n),
        0 <= n,
    ensures
        glitch_free(run_upto(hw, commands, n)),
    decreases n,
{
    if n > 0 {
        lemma_prefix_glitch_free(hw, commands, n - 1);
        lemma_step_glitch_free(run_upto(hw, commands, n - 1), commands[n - 1]);
    }
}

/// Running two sequences one after the other is running their concatenation,
/// and the concatenation is in order exactly when the first sequence is in
/// order and the second is in order from where the first one ends.
pub proof fn lemma_run_concat(hw: HardwareView, first: Seq<Command>, second: Seq<Command>)
    ensures
        run(hw, first + second) == run(run(hw, first), second),
        trace_allowed(hw, first + second) <==> trace_allowed(hw, first) && trace_allowed(
            run(hw, first),
            second,
        ),
{
    lemma_concat_upto(hw, first, second, second.len() as int);
    assert((first + second).len() == first.len() + second.len());
}

proof fn lemma_concat_upto(hw: HardwareView, first: Seq<Command>, second: Seq<Command>, k: int)
    requires
        0 <= k <= second.len(),
    ensures
        run_upto(hw, first + second, first.len() + k) == run_upto(run(hw, first), second, k),
        allowed_upto(hw, first + second, first.len() + k) <==> trace_allowed(hw, first)
            && allowed_upto(run(hw, first), second, k),
    decreases k,
{
    if k == 0 {
        lemma_concat_first(hw, first, second, first.len() as int);
    } else {
        lemma_concat_upto(hw, first, second, k - 1);
        assert((first + second)[first.len() + k - 1] == second[k - 1]);
    }
}

proof fn lemma_concat_first(hw: HardwareView, first: Seq<Command>, second: Seq<Command>, n: int)
    requires
        0 <= n <= first.len(),
    ensures
        run_upto(hw, first + second, n) == run_upto(hw, first, n),
        allowed_upto(hw, first + second, n) == allowed_upto(hw, first, n),
    decreases n,
{
    if n > 0 {
        lemma_concat_first(hw, first, second, n - 1);
        assert((first + second)[n - 1] == first[n - 1]);
    }
}

/// The registers that shape the waveform: the prescaler and the four compare
/// registers.
pub open spec fn tone_registers(timer: TimerRegisters) -> (u8, u16, u16, u16, u16) {
    (timer.prescaler, timer.cc0, timer.cc1, timer.cc2, timer.cc3)
}

/// The command writes one of the registers that shape the waveform.
pub open spec fn writes_register(command: Command) -> bool {
    command is WritePrescaler || command is WriteCompare
}

/// The command switches a route or a task input on.
pub open spec fn switches_on(command: Command) -> bool {
    ||| command matches Command::SetRouteEnabled { enabled, .. } && enabled
    ||| command matches Command::SetTaskEnabled { enabled, .. } && enabled
}

/// A command that is in order changes the registers that shape the waveform
/// only while the timer stands still and nothing can flip an output, and it
/// leaves both so.
pub proof fn lemma_write_needs_quiet(hw: HardwareView, command: Command)
    requires
        allowed(hw, command),
        tone_registers(step(hw, command).timer) != tone_registers(hw.timer),
    ensures
        !hw.timer.running,
        quiet(hw),
        !step(hw, command).timer.running,
        quiet(step(hw, command)),
{
}

/// Along a sequence of commands that are each in order, whenever one of them
/// changes the registers that shape the waveform, the timer stands still and
/// nothing can flip an output, before it and after it.
pub proof fn lemma_trace_writes_in_quiet(hw: HardwareView, commands: Seq<Command>, n: int)
    requires
        trace_allowed(hw, commands),
        0 < n <= commands.len(),
        tone_registers(run_upto(hw, commands, n).timer) != tone_registers(
            run_upto(hw, commands, n - 1).timer,
        ),
    ensures
        !run_upto(hw, commands, n - 1).timer.running,
        quiet(run_upto(hw, commands, n - 1)),
        !run_upto(hw, commands, n).timer.running,
        quiet(run_upto(hw, commands, n)),
{
    lemma_allowed_prefix(hw, commands, commands.len() as int, n);
    lemma_write_needs_quiet(run_upto(hw, commands, n - 1), commands[n - 1]);
}

/// Commands that write no register leave the registers that shape the
/// waveform as they were.
pub proof fn lemma_registers_kept(hw: HardwareView, commands: Seq<Command>, n: int)
    requires
        0 <= n <= commands.len(),
        forall|i: int| 0 <= i < n ==> !writes_register(#[trigger] commands[i]),
    ensures
        tone_registers(run_upto(hw, commands, n).timer) == tone_registers(hw.timer),
    decreases n,
{
    if n > 0 {
        lemma_registers_kept(hw, commands, n - 1);
        assert(!writes_register(commands[n - 1]));
    }
}

/// Commands that switch nothing on leave the outputs quiet.
pub proof fn lemma_quiet_kept(hw: HardwareView, commands: Seq<Command>, n: int)
    requires
        quiet(hw),
        0 <= n <= commands.len(),
        forall|i: int| 0 <= i < n ==> !switches_on(#[trigger] commands[i]),
    ensures
        quiet(run_upto(hw, commands, n)),
    decreases n,
{
    if n > 0 {
        lemma_quiet_kept(hw, commands, n - 1);
        assert(!switches_on(commands[n - 1]));
    }
}

/// The state after the first `n` commands of a concatenation: inside the
/// first sequence it is that sequence's own, beyond it the second sequence's,
/// run from where the first one ends.
pub proof fn lemma_run_upto_concat(
    hw: HardwareView,
    first: Seq<Command>,
    second: Seq<Command>,
    n: int,
)
    requires
        0 <= n <= first.len() + second.len(),
    ensures
        n <= first.len() ==> run_upto(hw, first + second, n) == run_upto(hw, first, n),
        n >= first.len() ==> run_upto(hw, first + second, n) == run_upto(
            run(hw, first),
            second,
            n - first.len(),
        ),
{
    if n <= first.len() {
        lemma_concat_first(hw, first, second, n);
    }
    if n >= first.len() {
        lemma_concat_upto(hw, first, second, n - first.len());
    }
}

/// Commands among which none starts the timer leave a timer that stands
/// still standing still.
pub proof fn lemma_stopped_kept(hw: HardwareView, commands: Seq<Command>, n: int)
    requires
        !hw.timer.running,
        0 <= n <= commands.len(),
        forall|i: int| 0 <= i < n ==> !((#[trigger] commands[i]) is StartTimer),
    ensures
        !run_upto(hw, commands, n).timer.running,
    decreases n,
{
    if n > 0 {
        lemma_stopped_kept(hw, commands, n - 1);
        assert(!(commands[n - 1] is StartTimer));
    }
}

/// Commands among which none arms the shortcut leave a shortcut that is not
/// armed unarmed.
pub proof fn lemma_unarmed_kept(hw: HardwareView, commands: Seq<Command>, n: int)
    requires
        !hw.timer.auto_clear,
        0 <= n <= commands.len(),
        forall|i: int| 0 <= i < n ==> !((#[trigger] commands[i]) is ArmAutoClear),
    ensures
        !run_upto(hw, commands, n).timer.auto_clear,
    decreases n,
{
    if n > 0 {
        lemma_unarmed_kept(hw, commands, n - 1);
        assert(!(commands[n - 1] is ArmAutoClear));
    }
}

/// From a timer that stands still, in a sequence of commands that are each in
/// order, the driver is woken only after the timer was started.
pub proof fn lemma_wake_follows_start(hw: HardwareView, commands: Seq<Command>, n: int)
    requires
        !hw.timer.running,
        trace_allowed(hw, commands),
        0 <= n < commands.len(),
        commands[n] == (Command::SetDriverEnabled { enabled: true }),
    ensures
        exists|m: int| 0 <= m < n && (#[trigger] commands[m]) is StartTimer,
{
    lemma_allowed_prefix(hw, commands, commands.len() as int, n + 1);
    if forall|m: int| 0 <= m < n ==> !((#[trigger] commands[m]) is StartTimer) {
        lemma_stopped_kept(hw, commands, n);
        assert(false);
    }
}

/// From a timer whose shortcut is not armed, in a sequence of commands that
/// are each in order, the timer is started only after the shortcut was armed,
/// which is the last step of writing a configuration.
pub proof fn lemma_start_follows_arming(hw: HardwareView, commands: Seq<Command>, n: int)
    requires
        !hw.timer.auto_clear,
        trace_allowed(hw, commands),
        0 <= n < commands.len(),
        commands[n] == Command::StartTimer,
    ensures
        exists|m: int| 0 <= m < n && (#[trigger] commands[m]) is ArmAutoClear,
{
    lemma_allowed_prefix(hw, commands, commands.len() as int, n + 1);
    if forall|m: int| 0 <= m < n ==> !((#[trigger] commands[m]) is ArmAutoClear) {
        lemma_unarmed_kept(hw, commands, n);
        assert(false);
    }
}

} // verus!
