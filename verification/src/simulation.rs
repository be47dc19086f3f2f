//! The lid timeline: which part of the fold animation is playing at a given instant.
//!
//! Time is a count of nanoseconds on a monotonic clock chosen by the caller.
use vstd::prelude::*;

use crate::config::DemoSettings;

verus! {

/// Nanoseconds in one millisecond.
pub const NANOS_PER_MILLI: u128 = 1_000_000;

/// Where the animation stands.
#[derive(Debug, Clone, Copy, PartialEq, Eq, Structural)]
pub enum Phase {
    Idle,
    Closing,
    Holding,
    Opening,
    CloseOnly,
    OpenOnly,
}

/// The phase that follows `p` once its time has run out.
pub open spec fn next_phase(p: Phase) -> Phase {
    match p {
        Phase::Closing => Phase::Holding,
        Phase::Holding => Phase::Opening,
        _ => Phase::Idle,
    }
}

/// How many phase changes are left before the animation is idle.
pub open spec fn phase_rank(p: Phase) -> nat {
    match p {
        Phase::Idle => 0,
        Phase::Opening | Phase::CloseOnly | Phase::OpenOnly => 1,
        Phase::Holding => 2,
        Phase::Closing => 3,
    }
}

/// A length of time given in milliseconds, in nanoseconds.
pub open spec fn millis_to_nanos(ms: u64) -> nat {
    (ms * 1_000_000) as nat
}

/// `ms`, but at least one millisecond.
pub open spec fn at_least_one_milli(ms: u64) -> u64 {
    if ms == 0 { 1 } else { ms }
}

/// The mathematical state of a [`Simulation`].
pub struct SimState {
    pub phase: Phase,
    pub started_at: nat,
    pub close: nat,
    pub hold: nat,
    pub open: nat,
}

/// How far the lid has travelled from open towards closed: `done / total`.
pub struct TravelSpec {
    pub done: nat,
    pub total: nat,
}

impl SimState {
    /// The length of the current phase.
    pub open spec fn phase_duration(self) -> nat {
        match self.phase {
            Phase::Idle => 0,
            Phase::Closing | Phase::CloseOnly => self.close,
            Phase::Holding => self.hold,
            Phase::Opening | Phase::OpenOnly => self.open,
        }
    }

    /// Time spent in the current phase at `now` (zero before it began).
    pub open spec fn elapsed(self, now: int) -> nat {
        if now >= self.started_at {
            (now - self.started_at) as nat
        } else {
            0
        }
    }

    /// The current phase is over at `now`.
    pub open spec fn is_due(self, now: int) -> bool {
        self.phase != Phase::Idle && self.elapsed(now) >= self.phase_duration()
    }

    /// The state at the moment the current phase hands over to the next one.
    pub open spec fn step(self) -> SimState {
        SimState {
            phase: next_phase(self.phase),
            started_at: self.started_at + self.phase_duration(),
            close: self.close,
            hold: self.hold,
            open: self.open,
        }
    }

    /// The state once every phase that is over at `now` has been left behind.
    pub open spec fn advanced(self, now: int) -> SimState
        decreases phase_rank(self.phase),
    {
        if self.is_due(now) {
            self.step().advanced(now)
        } else {
            self
        }
    }

    /// The lid's travel at `now`, without moving to another phase; none when idle.
    pub open spec fn travel(self, now: int) -> Option<TravelSpec> {
        let e = self.elapsed(now);
        match self.phase {
            Phase::Idle => None,
            Phase::Closing | Phase::CloseOnly => Some(
                TravelSpec { done: if e < self.close { e } else { self.close }, total: self.close },
            ),
            Phase::Holding => Some(TravelSpec { done: 1, total: 1 }),
            Phase::Opening | Phase::OpenOnly => Some(
                TravelSpec {
                    done: (self.open - (if e < self.open { e } else { self.open })) as nat,
                    total: self.open,
                },
            ),
        }
    }

    /// The durations of both moving phases are at least a millisecond.
    pub open spec fn durations_valid(self) -> bool {
        self.close >= 1_000_000 && self.open >= 1_000_000
    }

    /// The durations that `settings` asks for.
    pub open spec fn durations_match(self, settings: DemoSettings) -> bool {
        &&& self.close == millis_to_nanos(at_least_one_milli(settings.close_duration_ms))
        &&& self.hold == millis_to_nanos(settings.hold_duration_ms)
        &&& self.open == millis_to_nanos(at_least_one_milli(settings.open_duration_ms))
    }
}

/// The lid is fully closed at this travel.
pub open spec fn fully_closed(t: Option<TravelSpec>) -> bool {
    t matches Some(t) && t.done == t.total
}

/// The lid is fully open at this travel.
pub open spec fn fully_open(t: Option<TravelSpec>) -> bool {
    t matches Some(t) && t.done == 0
}

/// A phase that is over at some instant is over at every later instant.
pub proof fn lemma_due_stays_due(s: SimState, t1: int, t2: int)
    requires
        t1 <= t2,
        s.is_due(t1),
    ensures
        s.is_due(t2),
{
}

/// Catching up in two steps, first at `t1` and then at a later `t2`, ends in
/// the state that catching up once at `t2` gives: the timeline does not
/// depend on how often it is advanced.
pub proof fn lemma_advance_in_steps(s: SimState, t1: int, t2: int)
    requires
        t1 <= t2,
    ensures
        s.advanced(t1).advanced(t2) == s.advanced(t2),
    decreases phase_rank(s.phase),
{
    if s.is_due(t1) {
        lemma_due_stays_due(s, t1, t2);
        lemma_advance_in_steps(s.step(), t1, t2);
    } else {
        if s.phase == Phase::Idle {
            assert(!s.is_due(t2));
        }
    }
}

/// Once caught up at `now`, no phase is over at `now`, and catching up again
/// changes nothing.
pub proof fn lemma_advanced_is_settled(s: SimState, now: int)
    ensures
        !s.advanced(now).is_due(now),
        s.advanced(now).advanced(now) == s.advanced(now),
    decreases phase_rank(s.phase),
{
    if s.is_due(now) {
        lemma_advanced_is_settled(s.step(), now);
    }
}

/// Catching up keeps the durations and only moves forward through the phases.
pub proof fn lemma_advanced_keeps_durations(s: SimState, now: int)
    ensures
        s.advanced(now).close == s.close,
        s.advanced(now).hold == s.hold,
        s.advanced(now).open == s.open,
        phase_rank(s.advanced(now).phase) <= phase_rank(s.phase),
    decreases phase_rank(s.phase),
{
    if s.is_due(now) {
        lemma_advanced_keeps_durations(s.step(), now);
    }
}

/// The full animation started at `s.started_at`: the lid closes for `close`,
/// stays closed for `hold`, opens for `open`, and the animation then stops.
/// The lid is fully open when it starts, fully closed from the end of closing
/// to the start of opening, and the picture is gone afterwards.
pub proof fn lemma_full_timeline(s: SimState, now: int)
    requires
        s.phase == Phase::Closing,
        s.durations_valid(),
        now >= s.started_at,
    ensures
        ({
            let e = now - s.started_at;
            let r = s.advanced(now);
            &&& e < s.close ==> r.phase == Phase::Closing && r.started_at == s.started_at
            &&& s.close <= e < s.close + s.hold ==> r.phase == Phase::Holding && r.started_at
                == s.started_at + s.close
            &&& s.close + s.hold <= e < s.close + s.hold + s.open ==> r.phase == Phase::Opening
                && r.started_at == s.started_at + s.close + s.hold
            &&& s.close + s.hold + s.open <= e ==> r.phase == Phase::Idle
            &&& e == 0 ==> fully_open(r.travel(now))
            &&& s.close <= e <= s.close + s.hold ==> fully_closed(r.travel(now))
            &&& s.close + s.hold + s.open <= e ==> r.travel(now) is None
        }),
{
    let e = now - s.started_at;
    let s1 = s.step();
    let s2 = s1.step();
    let s3 = s2.step();
    assert(s3.phase == Phase::Idle);
    assert(s3.advanced(now) == s3);
    if e < s.close {
        assert(s.advanced(now) == s);
    } else {
        assert(s.advanced(now) == s1.advanced(now));
        if e < s.close + s.hold {
            assert(s1.advanced(now) == s1);
        } else {
            assert(s1.advanced(now) == s2.advanced(now));
            if e < s.close + s.hold + s.open {
                assert(s2.advanced(now) == s2);
            } else {
                assert(s2.advanced(now) == s3);
            }
        }
    }
}

/// Closing alone: the lid closes for `close`, then the animation stops.
pub proof fn lemma_close_only_timeline(s: SimState, now: int)
    requires
        s.phase == Phase::CloseOnly,
        s.durations_valid(),
        now >= s.started_at,
    ensures
        ({
            let e = now - s.started_at;
            let r = s.advanced(now);
            &&& e < s.close ==> r == s
            &&& s.close <= e ==> r.phase == Phase::Idle
            &&& e == 0 ==> fully_open(r.travel(now))
        }),
{
    let s1 = s.step();
    assert(s1.advanced(now) == s1);
}

/// Opening alone: the lid opens for `open`, then the animation stops; the
/// lid is fully closed when it starts.
pub proof fn lemma_open_only_timeline(s: SimState, now: int)
    requires
        s.phase == Phase::OpenOnly,
        s.durations_valid(),
        now >= s.started_at,
    ensures
        ({
            let e = now - s.started_at;
            let r = s.advanced(now);
            &&& e < s.open ==> r == s
            &&& s.open <= e ==> r.phase == Phase::Idle
            &&& e == 0 ==> fully_closed(r.travel(now))
        }),
{
    let s1 = s.step();
    assert(s1.advanced(now) == s1);
}

/// The lid moves in proportion to the time spent in a moving phase: `d` into
/// a closing phase of length `d` it has travelled `e` of `d`, and `e` into an
/// opening phase it has `d - e` of `d` left to open; before the phase begins
/// it has not moved, and once the phase's time is over it stays at the end.
/// While holding it is fully closed, and when idle there is no travel.
pub proof fn lemma_travel_proportional(s: SimState, now: int)
    ensures
        ({
            let t = s.travel(now);
            &&& (s.phase == Phase::Closing || s.phase == Phase::CloseOnly) ==> {
                &&& s.started_at <= now <= s.started_at + s.close ==> t == Some(
                    TravelSpec { done: (now - s.started_at) as nat, total: s.close },
                )
                &&& now < s.started_at ==> t == Some(TravelSpec { done: 0, total: s.close })
                &&& now > s.started_at + s.close ==> t == Some(
                    TravelSpec { done: s.close, total: s.close },
                )
            }
            &&& (s.phase == Phase::Opening || s.phase == Phase::OpenOnly) ==> {
                &&& s.started_at <= now <= s.started_at + s.open ==> t == Some(
                    TravelSpec { done: (s.open - (now - s.started_at)) as nat, total: s.open },
                )
                &&& now < s.started_at ==> t == Some(TravelSpec { done: s.open, total: s.open })
                &&& now > s.started_at + s.open ==> t == Some(TravelSpec { done: 0, total: s.open })
            }
            &&& s.phase == Phase::Holding ==> t == Some(TravelSpec { done: 1, total: 1 })
            &&& s.phase == Phase::Idle ==> t is None
        }),
{
}

/// Within one phase the lid only moves one way: towards closed while
/// closing, towards open while opening, and not at all while holding.
pub proof fn lemma_travel_monotone(s: SimState, t1: int, t2: int)
    requires
        t1 <= t2,
        s.phase != Phase::Idle,
    ensures
        ({
            let a = s.travel(t1)->0;
            let b = s.travel(t2)->0;
            &&& a.total == b.total
            &&& (s.phase == Phase::Closing || s.phase == Phase::CloseOnly) ==> a.done <= b.done
            &&& (s.phase == Phase::Opening || s.phase == Phase::OpenOnly) ==> a.done >= b.done
            &&& s.phase == Phase::Holding ==> a.done == b.done
        }),
{
}

/// Opening plays closing backwards: with the same start and length, at every
/// instant the two travels add up to the whole way.
pub proof fn lemma_opening_reverses_closing(c: SimState, o: SimState, now: int)
    requires
        c.phase == Phase::CloseOnly,
        o.phase == Phase::OpenOnly,
        c.started_at == o.started_at,
        c.close == o.open,
    ensures
        c.travel(now)->0.done + o.travel(now)->0.done == c.close,
        c.travel(now)->0.total == o.travel(now)->0.total,
{
}

/// How far the lid has travelled from open towards closed: `done / total`.
#[derive(Debug, Clone, Copy, PartialEq, Eq)]
pub struct Travel {
    pub done: u128,
    pub total: u128,
}

/// The mathematical value of an optional travel.
pub open spec fn travel_view(t: Option<Travel>) -> Option<TravelSpec> {
    match t {
        Some(t) => Some(TravelSpec { done: t.done as nat, total: t.total as nat }),
        None => None,
    }
}

/// The fold animation's timeline.
#[derive(Debug, Clone, Copy)]
pub struct Simulation {
    pub phase: Phase,
    started_at: u128,
    close_duration: u128,
    hold_duration: u128,
    open_duration: u128,
}

impl View for Simulation {
    type V = SimState;

    closed spec fn view(&self) -> SimState {
        SimState {
            phase: self.phase,
            started_at: self.started_at as nat,
            close: self.close_duration as nat,
            hold: self.hold_duration as nat,
            open: self.open_duration as nat,
        }
    }
}

/// `ms` in nanoseconds.
fn nanos_of_millis(ms: u64) -> (r: u128)
    ensures
        r == millis_to_nanos(ms),
{
    (ms as u128) * NANOS_PER_MILLI
}

impl Simulation {
    /// An idle timeline with the durations of `settings`.
    pub fn new(settings: &DemoSettings, now: u128) -> (s: Simulation)
        ensures
            s@.phase == Phase::Idle,
            s@.started_at == now,
            s@.durations_match(*settings),
            s@.durations_valid(),
    {
        let mut sim = Simulation {
            phase: Phase::Idle,
            started_at: now,
            close_duration: 0,
            hold_duration: 0,
            open_duration: 0,
        };
        sim.apply_config(settings);
        sim
    }

    /// Takes the durations of `settings`; the phase and its start are kept.
    pub fn apply_config(&mut self, settings: &DemoSettings)
        ensures
            final(self)@.phase == old(self)@.phase,
            final(self)@.started_at == old(self)@.started_at,
            final(self)@.durations_match(*settings),
            final(self)@.durations_valid(),
    {
        let close_ms = if settings.close_duration_ms == 0 { 1 } else { settings.close_duration_ms };
        let open_ms = if settings.open_duration_ms == 0 { 1 } else { settings.open_duration_ms };
        self.close_duration = nanos_of_millis(close_ms);
        self.hold_duration = nanos_of_millis(settings.hold_duration_ms);
        self.open_duration = nanos_of_millis(open_ms);
    }

    /// Starts the whole animation: closing, holding, then opening.
    pub fn play_full(&mut self, now: u128)
        ensures
            final(self)@ == (SimState { phase: Phase::Closing, started_at: now as nat, ..old(self)@ }),
    {
        self.phase = Phase::Closing;
        self.started_at = now;
    }

    /// Starts the closing half alone.
    pub fn play_close_only(&mut self, now: u128)
        ensures
            final(self)@ == (SimState { phase: Phase::CloseOnly, started_at: now as nat, ..old(self)@ }),
    {
        self.phase = Phase::CloseOnly;
        self.started_at = now;
    }

    /// Starts the opening half alone.
    pub fn play_open_only(&mut self, now: u128)
        ensures
            final(self)@ == (SimState { phase: Phase::OpenOnly, started_at: now as nat, ..old(self)@ }),
    {
        self.phase = Phase::OpenOnly;
        self.started_at = now;
    }

    /// Stops the animation.
    pub fn stop(&mut self)
        ensures
            final(self)@ == (SimState { phase: Phase::Idle, ..old(self)@ }),
    {
        self.phase = Phase::Idle;
    }

    /// The current phase.
    pub fn phase(&self) -> (r: Phase)
        ensures
            r == self@.phase,
    {
        self.phase
    }

    /// The animation is playing.
    pub fn is_running(&self) -> (r: bool)
        ensures
            r == (self@.phase != Phase::Idle),
    {
        match self.phase {
            Phase::Idle => false,
            _ => true,
        }
    }

    /// Moves on past every phase whose time is over at `now`.
    pub fn advance(&mut self, now: u128)
        ensures
            final(self)@ == old(self)@.advanced(now as int),
            final(self)@.close == old(self)@.close,
            final(self)@.hold == old(self)@.hold,
            final(self)@.open == old(self)@.open,
    {
        let ghost target = self@.advanced(now as int);
        loop
            invariant
                self@.advanced(now as int) == target,
                target == old(self)@.advanced(now as int),
                self@.close == old(self)@.close,
                self@.hold == old(self)@.hold,
                self@.open == old(self)@.open,
            decreases phase_rank(self@.phase),
        {
            let phase_duration = match self.phase {
                Phase::Idle => return ,
                Phase::Closing | Phase::CloseOnly => self.close_duration,
                Phase::Holding => self.hold_duration,
                Phase::Opening | Phase::OpenOnly => self.open_duration,
            };
            let elapsed = if now >= self.started_at {
                now - self.started_at
            } else {
                0
            };
            if elapsed < phase_duration {
                return ;
            }
            self.started_at = self.started_at + phase_duration;
            self.phase = match self.phase {
                Phase::Closing => Phase::Holding,
                Phase::Holding => Phase::Opening,
                _ => Phase::Idle,
            };
        }
    }

    /// How far the lid has travelled at `now` in the current phase; none when idle.
    pub fn lid_travel(&self, now: u128) -> (r: Option<Travel>)
        requires
            self@.durations_valid(),
        ensures
            travel_view(r) == self@.travel(now as int),
            r matches Some(t) ==> 0 < t.total && t.done <= t.total,
    {
        let elapsed = if now >= self.started_at {
            now - self.started_at
        } else {
            0
        };
        match self.phase {
            Phase::Idle => None,
            Phase::Closing | Phase::CloseOnly => {
                let d = self.close_duration;
                Some(Travel { done: if elapsed < d { elapsed } else { d }, total: d })
            },
            Phase::Holding => Some(Travel { done: 1, total: 1 }),
            Phase::Opening | Phase::OpenOnly => {
                let d = self.open_duration;
                let e = if elapsed < d { elapsed } else { d };
                Some(Travel { done: d - e, total: d })
            },
        }
    }
}

} // verus!
