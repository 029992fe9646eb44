use azalea_shell::time::{wants, Clock, ClockConfig, ClockTracker, TimeEvent};
use azalea_shell::window::{Init, PanelInit};

use azalea_shell::time::Ticks;

/// One tick whose outputs are all sent.
fn tick(t: &mut ClockTracker, minute: u32, hour: u32) -> Ticks {
    let ticks = t.ticks(minute, hour);
    if ticks.minute_changed {
        t.record_minute(minute);
        if ticks.hour_changed {
            t.record_hour(hour);
        }
    }
    ticks
}

#[test]
fn ticks_report_minute_and_hour_changes() {
    let mut t = ClockTracker::new();
    let a = tick(&mut t, 0, 0);
    assert!(!a.minute_changed && !a.hour_changed);
    let b = tick(&mut t, 1, 0);
    assert!(b.minute_changed && !b.hour_changed);
    let c = tick(&mut t, 0, 1);
    assert!(c.minute_changed && c.hour_changed);
    let d = tick(&mut t, 0, 1);
    assert!(!d.minute_changed && !d.hour_changed);
    // an hour change is only noticed together with a minute change
    let e = tick(&mut t, 0, 2);
    assert!(!e.minute_changed && !e.hour_changed);
    assert_eq!(t.hour, 1);
}

#[test]
fn unsent_tick_is_not_recorded() {
    let t = ClockTracker::new();
    let a = t.ticks(5, 3);
    assert!(a.minute_changed && a.hour_changed);
    // nothing recorded (the send failed): the same tick is reported again
    assert_eq!(t.ticks(5, 3), a);
    assert_eq!((t.minute, t.hour), (0, 0));
    let mut t = t;
    t.record_minute(5);
    assert_eq!((t.minute, t.hour), (5, 0));
    assert!(!t.ticks(5, 3).minute_changed);
}

#[test]
fn format_directives() {
    assert!(wants("%H:%M:%S", TimeEvent::Second));
    assert!(wants("%H:%M", TimeEvent::Minute));
    assert!(!wants("%H:%M", TimeEvent::Second));
    assert!(wants("%H", TimeEvent::Hour));
    assert!(!wants("", TimeEvent::Hour));
    let clock = Clock::init(Init::new(ClockConfig { format: "%M".to_string() }));
    assert!(clock.redraws_on(TimeEvent::Minute));
    assert!(!clock.redraws_on(TimeEvent::Hour));
    let panel = Clock::init_panel(PanelInit::new(ClockConfig { format: "%S".to_string() }));
    assert!(panel.redraws_on(TimeEvent::Second));
}
