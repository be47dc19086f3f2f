//! The decisions of the main loop: when an animation is scheduled, started,
//! drawn and stopped. Capturing, uploading and drawing are done by the caller,
//! which reports back and receives what to do next.
use vstd::prelude::*;

use crate::config::DemoSettings;
use crate::power::PowerEvent;
use crate::simulation::{
    at_least_one_milli, millis_to_nanos, travel_view, Phase, SimState, Simulation, Travel,
    TravelSpec, NANOS_PER_MILLI,
};

verus! {

/// Which part of the animation a demo plays.
#[derive(Debug, Clone, Copy, PartialEq, Eq, Structural)]
pub enum DemoMode {
    Full,
    CloseOnly,
    OpenOnly,
}

/// The wait between the lid closing and the closing animation, in milliseconds.
pub const LID_CLOSE_DELAY_MS: u64 = 150;

/// What the caller does for one turn of the main loop while a demo may be shown.
#[derive(Debug, Clone, Copy, PartialEq, Eq)]
pub enum FrameAction {
    /// No demo is shown.
    Inactive,
    /// Draw the picture with the lid at this travel.
    Render(Travel),
    /// The animation has ended: hide the demo window and drop the picture.
    Finished,
}

/// The mathematical value of a [`FrameAction`].
pub enum FrameSpec {
    Inactive,
    Render(TravelSpec),
    Finished,
}

/// The mathematical value of a frame action.
pub open spec fn frame_view(a: FrameAction) -> FrameSpec {
    match a {
        FrameAction::Inactive => FrameSpec::Inactive,
        FrameAction::Render(t) => FrameSpec::Render(travel_view(Some(t))->0),
        FrameAction::Finished => FrameSpec::Finished,
    }
}

/// The mathematical state of a [`DemoController`].
pub struct DemoState {
    pub sim: SimState,
    /// A demo that the next turn of the loop starts.
    pub pending_demo: Option<DemoMode>,
    /// A demo scheduled by the lid, with the instant it becomes due.
    pub pending_auto_demo: Option<(DemoMode, nat)>,
    /// The demo window shows a picture.
    pub demo_active: bool,
}

/// The mode and the delay of the demo that a lid event schedules.
pub open spec fn lid_demo(event: PowerEvent, settings: DemoSettings) -> (DemoMode, nat) {
    match event {
        PowerEvent::LidOpened => (
            DemoMode::OpenOnly,
            millis_to_nanos(at_least_one_milli(settings.lid_open_delay_ms)),
        ),
        _ => (DemoMode::CloseOnly, millis_to_nanos(LID_CLOSE_DELAY_MS)),
    }
}

/// The phase in which a demo of `mode` starts.
pub open spec fn starting_phase(mode: DemoMode) -> Phase {
    match mode {
        DemoMode::Full => Phase::Closing,
        DemoMode::CloseOnly => Phase::CloseOnly,
        DemoMode::OpenOnly => Phase::OpenOnly,
    }
}

impl DemoState {
    /// The animation is playing.
    pub open spec fn running(self) -> bool {
        self.sim.phase != Phase::Idle
    }

    /// After an event from the watcher; the flag says whether to bring the
    /// settings window forward.
    pub open spec fn on_power_event(self, event: PowerEvent, settings: DemoSettings, now: int) -> (
        DemoState,
        bool,
    ) {
        match event {
            PowerEvent::TrayDoubleClick => (self, true),
            _ => if !settings.auto_demo_on_lid || self.running() || self.pending_auto_demo is Some {
                (self, false)
            } else {
                let (mode, delay) = lid_demo(event, settings);
                (DemoState { pending_auto_demo: Some((mode, (now + delay) as nat)), ..self }, false)
            },
        }
    }

    /// After checking, at `now`, whether the scheduled demo is due.
    pub open spec fn on_poll(self, now: int) -> DemoState {
        match self.pending_auto_demo {
            Some((mode, when)) => if now >= when {
                if !self.running() && self.pending_demo is None {
                    DemoState { pending_auto_demo: None, pending_demo: Some(mode), ..self }
                } else {
                    DemoState { pending_auto_demo: None, ..self }
                }
            } else {
                self
            },
            None => self,
        }
    }

    /// After taking the demo that is to start.
    pub open spec fn on_take(self) -> (DemoState, Option<DemoMode>) {
        (DemoState { pending_demo: None, ..self }, self.pending_demo)
    }

    /// After a demo of `mode` was captured and shown at `now`.
    pub open spec fn on_started(self, mode: DemoMode, settings: DemoSettings, now: int) -> DemoState {
        DemoState {
            sim: SimState {
                phase: starting_phase(mode),
                started_at: now as nat,
                close: millis_to_nanos(at_least_one_milli(settings.close_duration_ms)),
                hold: millis_to_nanos(settings.hold_duration_ms),
                open: millis_to_nanos(at_least_one_milli(settings.open_duration_ms)),
            },
            demo_active: true,
            ..self
        }
    }

    /// After the demo is stopped.
    pub open spec fn on_stop(self) -> DemoState {
        DemoState { sim: SimState { phase: Phase::Idle, ..self.sim }, demo_active: false, ..self }
    }

    /// After one turn of the main loop at `now`, with what to draw.
    pub open spec fn on_frame(self, now: int) -> (DemoState, FrameSpec) {
        if !self.demo_active {
            (self, FrameSpec::Inactive)
        } else {
            let s = DemoState { sim: self.sim.advanced(now), ..self };
            if s.running() {
                (s, FrameSpec::Render(s.sim.travel(now)->0))
            } else {
                (s.on_stop(), FrameSpec::Finished)
            }
        }
    }

    /// After Escape was pressed; the flag says whether the demo was stopped.
    pub open spec fn on_escape(self) -> (DemoState, bool) {
        if self.running() {
            (self.on_stop(), true)
        } else {
            (self, false)
        }
    }

    /// After the demo window was asked to close; the flag says whether the
    /// demo was stopped.
    pub open spec fn on_demo_window_closed(self) -> (DemoState, bool) {
        if self.demo_active {
            (self.on_stop(), true)
        } else {
            (self, false)
        }
    }
}

/// Nothing plays, nothing is scheduled and nothing waits to start.
pub open spec fn quiet(s: DemoState) -> bool {
    &&& !s.running()
    &&& s.pending_auto_demo is None
    &&& s.pending_demo is None
}

/// With lid handling on and nothing going on, opening the lid at `t1`
/// schedules the opening animation: a check before the open delay has passed
/// starts nothing, and the first check after it starts the opening animation.
pub proof fn lemma_lid_opened_plays_opening(
    s: DemoState,
    settings: DemoSettings,
    t1: int,
    t2: int,
)
    requires
        quiet(s),
        settings.auto_demo_on_lid,
        0 <= t1 <= t2,
    ensures
        ({
            let (s1, show) = s.on_power_event(PowerEvent::LidOpened, settings, t1);
            let delay = millis_to_nanos(at_least_one_milli(settings.lid_open_delay_ms));
            &&& !show
            &&& t2 < t1 + delay ==> s1.on_poll(t2).on_take().1 is None
            &&& t2 >= t1 + delay ==> s1.on_poll(t2).on_take().1 == Some(DemoMode::OpenOnly)
        }),
{
}

/// With lid handling on and nothing going on, closing the lid at `t1`
/// schedules the closing animation for the fixed close delay later.
pub proof fn lemma_lid_closed_plays_closing(
    s: DemoState,
    settings: DemoSettings,
    t1: int,
    t2: int,
)
    requires
        quiet(s),
        settings.auto_demo_on_lid,
        0 <= t1 <= t2,
    ensures
        ({
            let (s1, show) = s.on_power_event(PowerEvent::LidClosed, settings, t1);
            let delay = millis_to_nanos(LID_CLOSE_DELAY_MS);
            &&& !show
            &&& t2 < t1 + delay ==> s1.on_poll(t2).on_take().1 is None
            &&& t2 >= t1 + delay ==> s1.on_poll(t2).on_take().1 == Some(DemoMode::CloseOnly)
        }),
{
}

/// A lid event changes nothing while lid handling is off, while an
/// animation plays, or while another demo is scheduled; a tray double click
/// changes nothing and brings the settings window forward.
pub proof fn lemma_lid_event_ignored(
    s: DemoState,
    event: PowerEvent,
    settings: DemoSettings,
    now: int,
)
    ensures
        event != PowerEvent::TrayDoubleClick && (!settings.auto_demo_on_lid || s.running()
            || s.pending_auto_demo is Some) ==> s.on_power_event(event, settings, now) == (
        s,
        false,
        ),
        event == PowerEvent::TrayDoubleClick ==> s.on_power_event(event, settings, now) == (s, true),
{
}

/// Starting a demo of `mode` at `t0` starts the phase that plays only what
/// the mode asks for (closing for a close-only demo, opening for an open-only
/// one, closing then holding then opening for a full one), at `t0`, with the
/// durations of `settings` (at least a millisecond for each moving phase),
/// and shows the demo window; nothing scheduled or requested is touched.
pub proof fn lemma_demo_started_plays_its_mode(
    s: DemoState,
    mode: DemoMode,
    settings: DemoSettings,
    t0: int,
)
    requires
        t0 >= 0,
    ensures
        ({
            let r = s.on_started(mode, settings, t0);
            &&& mode == DemoMode::CloseOnly ==> r.sim.phase == Phase::CloseOnly
            &&& mode == DemoMode::OpenOnly ==> r.sim.phase == Phase::OpenOnly
            &&& mode == DemoMode::Full ==> r.sim.phase == Phase::Closing
            &&& r.sim.started_at == t0
            &&& r.sim.close == (if settings.close_duration_ms == 0 { 1 } else { settings.close_duration_ms }) * 1_000_000
            &&& r.sim.hold == settings.hold_duration_ms * 1_000_000
            &&& r.sim.open == (if settings.open_duration_ms == 0 { 1 } else { settings.open_duration_ms }) * 1_000_000
            &&& r.demo_active
            &&& r.pending_demo == s.pending_demo
            &&& r.pending_auto_demo == s.pending_auto_demo
        }),
{
}

/// A close-only demo started at `t0` only closes the lid: every frame before
/// the closing time is over draws the closing lid, and the first frame at or
/// after it ends the demo and leaves the demo window empty. No frame of it
/// holds or opens the lid.
pub proof fn lemma_close_only_demo_only_closes(
    s: DemoState,
    settings: DemoSettings,
    t0: int,
    now: int,
)
    requires
        0 <= t0 <= now,
    ensures
        ({
            let started = s.on_started(DemoMode::CloseOnly, settings, t0);
            let (after, action) = started.on_frame(now);
            &&& after.sim.phase != Phase::Holding && after.sim.phase != Phase::Opening
            &&& now - t0 < started.sim.close ==> action is Render && after.sim.phase
                == Phase::CloseOnly && after.demo_active
            &&& now - t0 >= started.sim.close ==> action is Finished && !after.demo_active
                && after.sim.phase == Phase::Idle
        }),
{
    let started = s.on_started(DemoMode::CloseOnly, settings, t0);
    crate::simulation::lemma_close_only_timeline(started.sim, now);
}

/// An open-only demo started at `t0` only opens the lid, and ends on the
/// first frame at or after its opening time.
pub proof fn lemma_open_only_demo_only_opens(
    s: DemoState,
    settings: DemoSettings,
    t0: int,
    now: int,
)
    requires
        0 <= t0 <= now,
    ensures
        ({
            let started = s.on_started(DemoMode::OpenOnly, settings, t0);
            let (after, action) = started.on_frame(now);
            &&& after.sim.phase != Phase::Closing && after.sim.phase != Phase::Holding
            &&& now - t0 < started.sim.open ==> action is Render && after.sim.phase
                == Phase::OpenOnly && after.demo_active
            &&& now - t0 >= started.sim.open ==> action is Finished && !after.demo_active
                && after.sim.phase == Phase::Idle
        }),
{
    let started = s.on_started(DemoMode::OpenOnly, settings, t0);
    crate::simulation::lemma_open_only_timeline(started.sim, now);
}

/// A full demo started at `t0` is drawn on every turn of the loop until the
/// closing, holding and opening times have passed, and ends on the first
/// turn after that, leaving the demo window empty.
pub proof fn lemma_full_demo_runs_its_time(
    s: DemoState,
    settings: DemoSettings,
    t0: int,
    now: int,
)
    requires
        0 <= t0 <= now,
    ensures
        ({
            let started = s.on_started(DemoMode::Full, settings, t0);
            let total = started.sim.close + started.sim.hold + started.sim.open;
            let (after, action) = started.on_frame(now);
            &&& now - t0 < total ==> action is Render && after.demo_active && after.running()
            &&& now - t0 >= total ==> action is Finished && !after.demo_active && !after.running()
        }),
{
    let started = s.on_started(DemoMode::Full, settings, t0);
    crate::simulation::lemma_full_timeline(started.sim, now);
}

/// Escape always leaves the animation stopped.
pub proof fn lemma_escape_stops(s: DemoState)
    ensures
        !s.on_escape().0.running(),
        s.on_escape().1 == s.running(),
{
}

/// The main loop's demo state.
pub struct DemoController {
    simulation: Simulation,
    pending_demo: Option<DemoMode>,
    pending_auto_demo: Option<(DemoMode, u128)>,
    demo_active: bool,
}

impl View for DemoController {
    type V = DemoState;

    closed spec fn view(&self) -> DemoState {
        DemoState {
            sim: self.simulation@,
            pending_demo: self.pending_demo,
            pending_auto_demo: match self.pending_auto_demo {
                Some((m, w)) => Some((m, w as nat)),
                None => None,
            },
            demo_active: self.demo_active,
        }
    }
}

impl DemoController {
    /// Both moving phases last at least a millisecond.
    pub open spec fn wf(&self) -> bool {
        self@.sim.durations_valid()
    }

    /// Nothing playing, nothing scheduled, with the durations of `settings`.
    pub fn new(settings: &DemoSettings, now: u128) -> (c: DemoController)
        ensures
            c@.sim.phase == Phase::Idle,
            c@.sim.started_at == now,
            c@.sim.durations_match(*settings),
            c@.pending_demo is None,
            c@.pending_auto_demo is None,
            !c@.demo_active,
            c.wf(),
    {
        DemoController {
            simulation: Simulation::new(settings, now),
            pending_demo: None,
            pending_auto_demo: None,
            demo_active: false,
        }
    }

    /// The animation is playing.
    pub fn is_running(&self) -> (r: bool)
        ensures
            r == self@.running(),
    {
        self.simulation.is_running()
    }

    /// The demo window shows a picture.
    pub fn is_demo_active(&self) -> (r: bool)
        ensures
            r == self@.demo_active,
    {
        self.demo_active
    }

    /// The lid's travel at `now`; none when no animation plays.
    pub fn lid_travel(&self, now: u128) -> (r: Option<Travel>)
        requires
            self.wf(),
        ensures
            travel_view(r) == self@.sim.travel(now as int),
            r matches Some(t) ==> 0 < t.total && t.done <= t.total,
    {
        self.simulation.lid_travel(now)
    }

    /// Handles one event from the watcher at `now`. A lid event schedules the
    /// matching demo when that is enabled, nothing plays and nothing is
    /// scheduled yet; the result says whether to bring the settings window
    /// forward.
    pub fn handle_power_event(&mut self, event: PowerEvent, settings: &DemoSettings, now: u128) -> (r:
        bool)
        requires
            old(self).wf(),
            now + lid_demo(event, *settings).1 <= u128::MAX,
        ensures
            (final(self)@, r) == old(self)@.on_power_event(event, *settings, now as int),
            final(self).wf(),
    {
        match event {
            PowerEvent::TrayDoubleClick => true,
            PowerEvent::LidOpened | PowerEvent::LidClosed => {
                if !settings.auto_demo_on_lid {
                    return false;
                }
                if self.simulation.is_running() || self.pending_auto_demo.is_some() {
                    return false;
                }
                let open_ms = if settings.lid_open_delay_ms == 0 {
                    1
                } else {
                    settings.lid_open_delay_ms
                };
                let (mode, delay_ms) = match event {
                    PowerEvent::LidOpened => (DemoMode::OpenOnly, open_ms),
                    _ => (DemoMode::CloseOnly, LID_CLOSE_DELAY_MS),
                };
                let delay = (delay_ms as u128) * NANOS_PER_MILLI;
                self.pending_auto_demo = Some((mode, now + delay));
                false
            },
        }
    }

    /// Moves a scheduled demo that is due at `now` to the demo that starts
    /// next, unless an animation plays or another demo waits to start.
    pub fn poll_auto_demo(&mut self, now: u128)
        requires
            old(self).wf(),
        ensures
            final(self)@ == old(self)@.on_poll(now as int),
            final(self).wf(),
    {
        if let Some((mode, when)) = self.pending_auto_demo {
            if now >= when {
                self.pending_auto_demo = None;
                if !self.simulation.is_running() && self.pending_demo.is_none() {
                    self.pending_demo = Some(mode);
                }
            }
        }
    }

    /// Asks for a demo of `mode` at the next turn of the loop.
    pub fn request_demo(&mut self, mode: DemoMode)
        requires
            old(self).wf(),
        ensures
            final(self)@ == (DemoState { pending_demo: Some(mode), ..old(self)@ }),
            final(self).wf(),
    {
        self.pending_demo = Some(mode);
    }

    /// Takes the demo that is to start now, if any.
    pub fn take_pending_demo(&mut self) -> (r: Option<DemoMode>)
        requires
            old(self).wf(),
        ensures
            (final(self)@, r) == old(self)@.on_take(),
            final(self).wf(),
    {
        self.pending_demo.take()
    }

    /// Records that a demo of `mode` was captured and shown at `now`, and
    /// starts its animation with the durations of `settings`.
    pub fn demo_started(&mut self, mode: DemoMode, settings: &DemoSettings, now: u128)
        requires
            old(self).wf(),
        ensures
            final(self)@ == old(self)@.on_started(mode, *settings, now as int),
            final(self).wf(),
    {
        self.demo_active = true;
        self.simulation.apply_config(settings);
        match mode {
            DemoMode::Full => self.simulation.play_full(now),
            DemoMode::CloseOnly => self.simulation.play_close_only(now),
            DemoMode::OpenOnly => self.simulation.play_open_only(now),
        }
    }

    /// Stops the animation and marks the demo window as empty.
    pub fn stop_demo(&mut self)
        requires
            old(self).wf(),
        ensures
            final(self)@ == old(self)@.on_stop(),
            final(self).wf(),
    {
        self.simulation.stop();
        self.demo_active = false;
    }

    /// One turn of the main loop at `now`: catches the animation up and says
    /// whether to draw a frame, or that the animation has ended.
    pub fn frame(&mut self, now: u128) -> (r: FrameAction)
        requires
            old(self).wf(),
        ensures
            (final(self)@, frame_view(r)) == old(self)@.on_frame(now as int),
            final(self).wf(),
    {
        if !self.demo_active {
            return FrameAction::Inactive;
        }
        self.simulation.advance(now);
        if self.simulation.is_running() {
            match self.simulation.lid_travel(now) {
                Some(t) => FrameAction::Render(t),
                None => FrameAction::Inactive,
            }
        } else {
            self.stop_demo();
            FrameAction::Finished
        }
    }

    /// Escape was pressed: stops a playing animation; says whether it did.
    pub fn escape_pressed(&mut self) -> (r: bool)
        requires
            old(self).wf(),
        ensures
            (final(self)@, r) == old(self)@.on_escape(),
            final(self).wf(),
    {
        if self.simulation.is_running() {
            self.stop_demo();
            true
        } else {
            false
        }
    }

    /// The demo window was asked to close: stops a shown demo; says whether it did.
    pub fn demo_window_closed(&mut self) -> (r: bool)
        requires
            old(self).wf(),
        ensures
            (final(self)@, r) == old(self)@.on_demo_window_closed(),
            final(self).wf(),
    {
        if self.demo_active {
            self.stop_demo();
            true
        } else {
            false
        }
    }
}

} // verus!
