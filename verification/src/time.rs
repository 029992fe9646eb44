//! The clock: which time outputs a tick produces, and which of them a clock
//! widget with a given format listens to.
use vstd::prelude::*;

use crate::text::{chars_of, contains_chars, contains_seq};
use crate::window::{Init, InitExt, ModelExt, PanelInit};

verus! {

/// Remembers the minute and hour last reported by the clock service.
pub struct ClockTracker {
    pub minute: u32,
    pub hour: u32,
}

/// Which outputs a clock tick produces besides the per-second one.
#[derive(Clone, Copy, Debug, PartialEq, Eq, Structural)]
pub struct Ticks {
    pub minute_changed: bool,
    pub hour_changed: bool,
}

/// The outputs of a tick at `minute`:`hour` after `(last_minute, last_hour)`:
/// a minute output when the minute changed, and an hour output when the
/// minute changed and the hour did too.
pub open spec fn ticks_for(last_minute: u32, last_hour: u32, minute: u32, hour: u32) -> Ticks {
    Ticks {
        minute_changed: last_minute != minute,
        hour_changed: last_minute != minute && last_hour != hour,
    }
}

impl ClockTracker {
    /// A tracker that has seen minute 0 of hour 0.
    pub fn new() -> (r: ClockTracker)
        ensures
            r.minute == 0,
            r.hour == 0,
    {
        ClockTracker { minute: 0, hour: 0 }
    }

    /// Which outputs a tick at `minute`:`hour` produces besides the
    /// per-second one; nothing is recorded yet.
    pub fn ticks(&self, minute: u32, hour: u32) -> (r: Ticks)
        ensures
            r == ticks_for(self.minute, self.hour, minute, hour),
    {
        let minute_changed = self.minute != minute;
        Ticks { minute_changed, hour_changed: minute_changed && self.hour != hour }
    }

    /// Records the minute, before its minute output is sent.
    pub fn record_minute(&mut self, minute: u32)
        ensures
            final(self).minute == minute,
            final(self).hour == old(self).hour,
    {
        self.minute = minute;
    }

    /// Records the hour, before its hour output is sent.
    pub fn record_hour(&mut self, hour: u32)
        ensures
            final(self).hour == hour,
            final(self).minute == old(self).minute,
    {
        self.hour = hour;
    }
}

/// A second tick at the same time as the one before, once the first tick's
/// minute and hour were recorded, produces only the per-second output, and an hour output never comes without a minute output.
pub proof fn law_repeated_tick_is_quiet(last_minute: u32, last_hour: u32, minute: u32, hour: u32)
    ensures
        ({
            let new_hour = if last_minute != minute {
                hour
            } else {
                last_hour
            };
            ticks_for(minute, new_hour, minute, hour) == Ticks {
                minute_changed: false,
                hour_changed: false,
            }
        }),
        ticks_for(last_minute, last_hour, minute, hour).hour_changed ==> ticks_for(
            last_minute,
            last_hour,
            minute,
            hour,
        ).minute_changed,
{
}

/// The kinds of clock output.
#[derive(Clone, Copy, Debug, PartialEq, Eq, Structural)]
pub enum TimeEvent {
    Second,
    Minute,
    Hour,
}

/// The format directive a clock output is needed for.
pub open spec fn directive(e: TimeEvent) -> Seq<char> {
    match e {
        TimeEvent::Second => "%S"@,
        TimeEvent::Minute => "%M"@,
        TimeEvent::Hour => "%H"@,
    }
}

/// Whether a clock widget with this format redraws on a clock output: the
/// format uses that output's directive.
pub fn wants(format: &str, event: TimeEvent) -> (r: bool)
    ensures
        r == contains_seq(format@, directive(event)),
{
    let token = match event {
        TimeEvent::Second => chars_of("%S"),
        TimeEvent::Minute => chars_of("%M"),
        TimeEvent::Hour => chars_of("%H"),
    };
    contains_chars(&chars_of(format), &token)
}


/// The configuration of a clock widget.
#[derive(Clone, Debug)]
pub struct ClockConfig {
    /// A `strftime`-style format.
    pub format: String,
}

/// A clock widget: it shows the time in its format and redraws on the clock
/// outputs its format needs.
pub struct Clock {
    pub format: String,
}

impl ModelExt for Clock {
    type Config = ClockConfig;
}

impl InitExt for Clock {
    type Config = ClockConfig;
}

impl Clock {
    /// A clock widget of the shell.
    pub fn init(init: Init<Clock>) -> (r: Clock)
        ensures
            r.format == init.config.format,
    {
        Clock { format: init.config.format }
    }

    /// A clock widget of the window crate's panel.
    pub fn init_panel(init: PanelInit<Clock>) -> (r: Clock)
        ensures
            r.format == init.config.format,
    {
        Clock { format: init.config.format }
    }

    /// Whether the widget redraws on a clock output.
    pub fn redraws_on(&self, event: TimeEvent) -> (r: bool)
        ensures
            r == contains_seq(self.format@, directive(event)),
    {
        wants(self.format.as_str(), event)
    }
}
} // verus!
