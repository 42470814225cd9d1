//! Digital outputs that flip on a hardware task.
use vstd::prelude::*;
use crate::gpio::{Level, Pin};

verus! {

/// A hardware task that something can be routed to.
#[derive(Clone, Copy, Debug, PartialEq, Eq, Structural)]
pub enum TaskSink {
    /// Flip the output of the toggle channel with this number.
    ChannelToggle(u8),
}

/// What a toggle channel holds, without the pin handle itself.
#[derive(Clone, Copy, Debug, PartialEq, Eq, Structural)]
pub struct ChannelLine {
    /// Number of the toggle channel.
    pub channel: u8,
    /// Number of the port line the channel drives.
    pub pin: u8,
    /// Level the line starts at.
    pub initial_polarity: Level,
    /// Whether the line flips each time the channel's task fires.
    pub toggle_on_task: bool,
    /// Whether the channel's task input accepts triggers.
    pub task_enabled: bool,
}

/// One output line bound to a toggle channel. The binding owns the pin.
#[derive(Debug)]
pub struct ChannelBinding {
    channel: u8,
    output_pin: Pin,
    initial_polarity: Level,
    toggle_on_task: bool,
    task_enabled: bool,
}

impl ChannelBinding {
    /// What the channel holds.
    pub closed spec fn view(&self) -> ChannelLine {
        ChannelLine {
            channel: self.channel,
            pin: self.output_pin.number,
            initial_polarity: self.initial_polarity,
            toggle_on_task: self.toggle_on_task,
            task_enabled: self.task_enabled,
        }
    }

    /// Binds an output line to toggle channel `channel`. The line will flip on
    /// every task, starting from `initial_polarity`; the task input starts
    /// disabled.
    pub fn bind(channel: u8, output_pin: Pin, initial_polarity: Level) -> (binding: Self)
        requires
            output_pin.mode is PushPullOutput,
        ensures
            binding@ == (ChannelLine {
                channel,
                pin: output_pin.number,
                initial_polarity,
                toggle_on_task: true,
                task_enabled: false,
            }),
    {
        ChannelBinding {
            channel,
            output_pin,
            initial_polarity,
            toggle_on_task: true,
            task_enabled: false,
        }
    }

    /// Lets the channel's task input accept triggers. Doing so twice is the
    /// same as doing so once.
    pub fn enable_task(&mut self)
        ensures
            final(self)@ == (ChannelLine { task_enabled: true, ..old(self)@ }),
    {
        self.task_enabled = true;
    }

    /// Makes the channel's task input ignore triggers.
    pub fn disable_task(&mut self)
        ensures
            final(self)@ == (ChannelLine { task_enabled: false, ..old(self)@ }),
    {
        self.task_enabled = false;
    }

    /// The task that flips this channel's line.
    pub fn task_sink(&self) -> (sink: TaskSink)
        ensures
            sink == TaskSink::ChannelToggle(self@.channel),
    {
        TaskSink::ChannelToggle(self.channel)
    }

    /// A copy of what the channel holds.
    pub fn line(&self) -> (line: ChannelLine)
        ensures
            line == self@,
    {
        ChannelLine {
            channel: self.channel,
            pin: self.output_pin.number,
            initial_polarity: self.initial_polarity,
            toggle_on_task: self.toggle_on_task,
            task_enabled: self.task_enabled,
        }
    }
}

} // verus!
