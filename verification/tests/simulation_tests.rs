use windows_duo::config::{default_lid_open_delay, default_true, DemoSettings, DepthMode};
use windows_duo::simulation::{Phase, Simulation, Travel, NANOS_PER_MILLI};

const MS: u128 = NANOS_PER_MILLI;

fn settings(close: u64, hold: u64, open: u64) -> DemoSettings {
    DemoSettings {
        close_duration_ms: close,
        hold_duration_ms: hold,
        open_duration_ms: open,
        ..DemoSettings::default()
    }
}

#[test]
fn defaults_match_the_documented_values() {
    let d = DemoSettings::default();
    assert_eq!(d.close_duration_ms, 500);
    assert_eq!(d.hold_duration_ms, 500);
    assert_eq!(d.open_duration_ms, 2000);
    assert!(d.auto_demo_on_lid);
    assert_eq!(d.lid_open_delay_ms, 300);
    assert_eq!(d.depth_mode, DepthMode::Perspective);
    assert_eq!(DepthMode::default(), DepthMode::Perspective);
    assert!(default_true());
    assert_eq!(default_lid_open_delay(), 300);
}

#[test]
fn new_simulation_is_idle() {
    let sim = Simulation::new(&DemoSettings::default(), 5);
    assert_eq!(sim.phase, Phase::Idle);
    assert_eq!(sim.phase(), Phase::Idle);
    assert!(!sim.is_running());
    assert_eq!(sim.lid_travel(5), None);
}

#[test]
fn full_timeline_walks_through_every_phase() {
    let s = settings(500, 100, 2000);
    let t0: u128 = 1_000 * MS;
    let mut sim = Simulation::new(&s, 0);
    sim.play_full(t0);
    assert!(sim.is_running());
    let cases = [
        (0, Phase::Closing),
        (499, Phase::Closing),
        (500, Phase::Holding),
        (599, Phase::Holding),
        (600, Phase::Opening),
        (2599, Phase::Opening),
        (2600, Phase::Idle),
    ];
    for (ms, phase) in cases {
        let mut probe = sim.clone();
        probe.advance(t0 + ms * MS);
        assert_eq!(probe.phase, phase, "at {ms} ms");
    }
}

#[test]
fn advancing_in_steps_equals_advancing_once() {
    let s = settings(500, 100, 2000);
    let mut stepwise = Simulation::new(&s, 0);
    stepwise.play_full(0);
    let mut once = Simulation::new(&s, 0);
    once.play_full(0);
    for ms in [10u128, 480, 505, 650, 1200, 2100] {
        stepwise.advance(ms * MS);
    }
    once.advance(2100 * MS);
    assert_eq!(stepwise.phase, once.phase);
    assert_eq!(stepwise.lid_travel(2100 * MS), once.lid_travel(2100 * MS));
    assert_eq!(once.phase, Phase::Opening);
}

#[test]
fn travel_has_exact_values() {
    let s = settings(500, 0, 2000);
    let mut sim = Simulation::new(&s, 0);
    sim.play_close_only(0);
    assert_eq!(sim.lid_travel(0), Some(Travel { done: 0, total: 500 * MS }));
    assert_eq!(sim.lid_travel(250 * MS), Some(Travel { done: 250 * MS, total: 500 * MS }));
    // Without advancing, the travel stays at the end of the phase.
    assert_eq!(sim.lid_travel(900 * MS), Some(Travel { done: 500 * MS, total: 500 * MS }));
    sim.play_open_only(0);
    assert_eq!(sim.lid_travel(0), Some(Travel { done: 2000 * MS, total: 2000 * MS }));
    assert_eq!(sim.lid_travel(500 * MS), Some(Travel { done: 1500 * MS, total: 2000 * MS }));
    sim.advance(2000 * MS);
    assert_eq!(sim.phase, Phase::Idle);
    assert_eq!(sim.lid_travel(2000 * MS), None);
}

#[test]
fn holding_keeps_the_lid_closed() {
    let s = settings(100, 300, 100);
    let mut sim = Simulation::new(&s, 0);
    sim.play_full(0);
    sim.advance(150 * MS);
    assert_eq!(sim.phase, Phase::Holding);
    assert_eq!(sim.lid_travel(150 * MS), Some(Travel { done: 1, total: 1 }));
}

#[test]
fn zero_durations_become_one_millisecond() {
    let s = settings(0, 0, 0);
    let mut sim = Simulation::new(&s, 0);
    sim.play_full(0);
    assert_eq!(sim.lid_travel(0), Some(Travel { done: 0, total: MS }));
    sim.advance(MS - 1);
    assert_eq!(sim.phase, Phase::Closing);
    // One millisecond in: closing ends, the empty hold ends, opening starts.
    sim.advance(MS);
    assert_eq!(sim.phase, Phase::Opening);
    sim.advance(2 * MS);
    assert_eq!(sim.phase, Phase::Idle);
}

#[test]
fn time_before_the_start_counts_as_zero() {
    let s = settings(500, 0, 500);
    let mut sim = Simulation::new(&s, 0);
    sim.play_close_only(1_000 * MS);
    sim.advance(10 * MS);
    assert_eq!(sim.phase, Phase::CloseOnly);
    assert_eq!(sim.lid_travel(10 * MS), Some(Travel { done: 0, total: 500 * MS }));
}

#[test]
fn stop_and_apply_config() {
    let mut sim = Simulation::new(&settings(500, 0, 500), 0);
    sim.play_full(0);
    sim.apply_config(&settings(1000, 0, 500));
    assert_eq!(sim.phase, Phase::Closing);
    sim.advance(700 * MS);
    assert_eq!(sim.phase, Phase::Closing);
    sim.stop();
    assert!(!sim.is_running());
    assert_eq!(sim.phase, Phase::Idle);
}

#[test]
fn opening_plays_closing_backwards() {
    let s = settings(800, 0, 800);
    let mut closing = Simulation::new(&s, 0);
    closing.play_close_only(0);
    let mut opening = Simulation::new(&s, 0);
    opening.play_open_only(0);
    for ms in [0u128, 1, 200, 799, 800] {
        let c = closing.lid_travel(ms * MS).unwrap();
        let o = opening.lid_travel(ms * MS).unwrap();
        assert_eq!(c.total, o.total);
        assert_eq!(c.done + o.done, c.total);
    }
}

#[test]
fn default_full_demo_holds_for_half_a_second() {
    let mut sim = Simulation::new(&DemoSettings::default(), 0);
    sim.play_full(0);
    sim.advance(500 * MS);
    assert_eq!(sim.phase(), Phase::Holding);
    sim.advance(999 * MS);
    assert_eq!(sim.phase(), Phase::Holding);
    sim.advance(1_000 * MS);
    assert_eq!(sim.phase(), Phase::Opening);
    sim.advance(3_000 * MS);
    assert_eq!(sim.phase(), Phase::Idle);
}
