use windows_duo::config::DemoSettings;
use windows_duo::demo::{DemoController, DemoMode, FrameAction, LID_CLOSE_DELAY_MS};
use windows_duo::power::PowerEvent;
use windows_duo::simulation::{Travel, NANOS_PER_MILLI};

const MS: u128 = NANOS_PER_MILLI;

fn quiet() -> DemoController {
    DemoController::new(&DemoSettings::default(), 0)
}

#[test]
fn lid_opened_schedules_the_opening_after_the_delay() {
    let s = DemoSettings { lid_open_delay_ms: 400, ..DemoSettings::default() };
    let mut c = quiet();
    assert!(!c.handle_power_event(PowerEvent::LidOpened, &s, 1_000 * MS));
    c.poll_auto_demo(1_399 * MS);
    assert_eq!(c.take_pending_demo(), None);
    c.poll_auto_demo(1_400 * MS);
    assert_eq!(c.take_pending_demo(), Some(DemoMode::OpenOnly));
    assert_eq!(c.take_pending_demo(), None);
}

#[test]
fn lid_closed_schedules_the_closing_after_a_fixed_delay() {
    let s = DemoSettings { lid_open_delay_ms: 5_000, ..DemoSettings::default() };
    let mut c = quiet();
    c.handle_power_event(PowerEvent::LidClosed, &s, 0);
    c.poll_auto_demo((LID_CLOSE_DELAY_MS as u128) * MS - 1);
    assert_eq!(c.take_pending_demo(), None);
    c.poll_auto_demo((LID_CLOSE_DELAY_MS as u128) * MS);
    assert_eq!(c.take_pending_demo(), Some(DemoMode::CloseOnly));
}

#[test]
fn zero_open_delay_waits_one_millisecond() {
    let s = DemoSettings { lid_open_delay_ms: 0, ..DemoSettings::default() };
    let mut c = quiet();
    c.handle_power_event(PowerEvent::LidOpened, &s, 0);
    c.poll_auto_demo(MS - 1);
    assert_eq!(c.take_pending_demo(), None);
    c.poll_auto_demo(MS);
    assert_eq!(c.take_pending_demo(), Some(DemoMode::OpenOnly));
}

#[test]
fn lid_events_are_ignored_when_disabled_or_busy() {
    let off = DemoSettings { auto_demo_on_lid: false, ..DemoSettings::default() };
    let mut c = quiet();
    c.handle_power_event(PowerEvent::LidClosed, &off, 0);
    c.poll_auto_demo(10_000 * MS);
    assert_eq!(c.take_pending_demo(), None);

    // A second event while one is scheduled keeps the first.
    let on = DemoSettings::default();
    let mut c = quiet();
    c.handle_power_event(PowerEvent::LidClosed, &on, 0);
    c.handle_power_event(PowerEvent::LidOpened, &on, 0);
    c.poll_auto_demo(200 * MS);
    assert_eq!(c.take_pending_demo(), Some(DemoMode::CloseOnly));

    // An event while an animation plays is ignored.
    let mut c = quiet();
    c.demo_started(DemoMode::Full, &on, 0);
    c.handle_power_event(PowerEvent::LidOpened, &on, 0);
    c.poll_auto_demo(10_000 * MS);
    assert_eq!(c.take_pending_demo(), None);
}

#[test]
fn tray_double_click_asks_for_the_settings_window() {
    let mut c = quiet();
    assert!(c.handle_power_event(PowerEvent::TrayDoubleClick, &DemoSettings::default(), 0));
    c.poll_auto_demo(10_000 * MS);
    assert_eq!(c.take_pending_demo(), None);
}

#[test]
fn due_demo_waits_while_another_is_requested() {
    let mut c = quiet();
    c.handle_power_event(PowerEvent::LidClosed, &DemoSettings::default(), 0);
    c.request_demo(DemoMode::OpenOnly);
    c.poll_auto_demo(1_000 * MS);
    assert_eq!(c.take_pending_demo(), Some(DemoMode::OpenOnly));
    // The scheduled one was dropped when it fell due.
    c.poll_auto_demo(2_000 * MS);
    assert_eq!(c.take_pending_demo(), None);
}

#[test]
fn full_demo_renders_then_finishes() {
    let s = DemoSettings {
        close_duration_ms: 500,
        hold_duration_ms: 0,
        open_duration_ms: 2000,
        ..DemoSettings::default()
    };
    let mut c = quiet();
    assert_eq!(c.frame(0), FrameAction::Inactive);
    c.demo_started(DemoMode::Full, &s, 0);
    assert!(c.is_demo_active());
    assert_eq!(
        c.frame(250 * MS),
        FrameAction::Render(Travel { done: 250 * MS, total: 500 * MS })
    );
    assert_eq!(
        c.frame(1_500 * MS),
        FrameAction::Render(Travel { done: 1_000 * MS, total: 2_000 * MS })
    );
    assert_eq!(c.frame(2_500 * MS), FrameAction::Finished);
    assert!(!c.is_demo_active());
    assert!(!c.is_running());
    assert_eq!(c.frame(2_600 * MS), FrameAction::Inactive);
}

#[test]
fn escape_and_close_stop_the_demo() {
    let s = DemoSettings::default();
    let mut c = quiet();
    assert!(!c.escape_pressed());
    c.demo_started(DemoMode::CloseOnly, &s, 0);
    assert!(c.is_running());
    assert!(c.escape_pressed());
    assert!(!c.is_running());
    assert!(!c.is_demo_active());

    let mut c = quiet();
    assert!(!c.demo_window_closed());
    c.demo_started(DemoMode::OpenOnly, &s, 0);
    assert!(c.demo_window_closed());
    assert!(!c.is_demo_active());
    assert_eq!(c.lid_travel(0), None);
}
