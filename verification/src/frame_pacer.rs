//! Frame demand gated to a vsync source, for hosts that run their own loop.
//!
//! [`FrameDemand`](crate::frame_demand::FrameDemand) is the shape for a host
//! whose frame source ticks by itself. A loop that polls a looper has no
//! source of its own; it wants to know *when* to draw. [`FramePacer`] answers
//! that: demand asks for one vsync callback, the callback marks a frame as
//! due, and the loop draws exactly one frame per marked vsync. Demand raised
//! while a callback is posted or a frame is already due is folded into it, so
//! a window that is notified fifty times between two vsyncs still draws once.
//!
//! Waiting for a vsync only makes sense while the loop keeps up with them.
//! Once the previous frame took a whole interval or longer, the vsync it would
//! wait for has already passed, and waiting for the next one only delays the
//! frame. Such demand is served at once; a loop that is behind draws
//! back-to-back and returns to vsync pacing as soon as a frame fits the
//! interval again. The first frame after an idle period is served at once for
//! the same reason.
//!
//! Without a vsync source the pacer falls back to a wall clock: demand becomes
//! due one frame interval after the previous frame, and
//! [`FramePacer::poll_timeout`] tells the loop how long it may sleep before
//! then.

use crate::time::{duration_view, elapsed, instant_view, Duration, Instant};
use vstd::prelude::*;

verus! {

/// Decides when a loop draws. The host posts the vsync callbacks that
/// [`schedule`](Self::schedule) and [`resume`](Self::resume) ask for and
/// reports each one with [`on_vsync`](Self::on_vsync).
pub struct FramePacer {
    /// Whether there is a vsync source; without one the pacer goes by the
    /// clock, `interval` between frames.
    vsync: bool,
    /// The display's refresh interval: how long a frame may take before the
    /// next one stops waiting for a vsync, and the spacing of the fallback
    /// clock.
    interval: Duration,
    /// A vsync callback is posted and has not fired yet.
    posted: bool,
    /// A vsync fired and the frame it owes has not been taken yet.
    due: bool,
    /// Fallback only: demand is waiting for this instant.
    fallback_due_at: Option<Instant>,
    /// When the previous frame was taken, to space the next.
    last_frame_at: Option<Instant>,
}

/// What a [`FramePacer`] remembers.
pub ghost struct PacerState {
    pub vsync: bool,
    pub interval: int,
    pub posted: bool,
    pub due: bool,
    pub fallback_due_at: Option<int>,
    pub last_frame_at: Option<int>,
}

/// One call on a [`FramePacer`].
pub ghost enum PacerCall {
    Schedule(int),
    OnVsync,
    TakeFrame(int),
    Resume(int),
}

impl PacerState {
    /// A pacer on which nothing has happened yet.
    pub open spec fn fresh(vsync: bool, interval: int) -> PacerState {
        PacerState {
            vsync,
            interval,
            posted: false,
            due: false,
            fallback_due_at: None,
            last_frame_at: None,
        }
    }

    /// A callback is either posted or has fired, only a vsync source has
    /// callbacks posted, and only the clock has an instant to wait for.
    pub open spec fn wf(self) -> bool {
        &&& !(self.posted && self.due)
        &&& self.vsync ==> self.fallback_due_at is None
        &&& !self.vsync ==> !self.posted
    }

    /// A frame is wanted: posted, due, or waiting on the fallback clock.
    pub open spec fn has_demand(self) -> bool {
        self.posted || self.due || self.fallback_due_at is Some
    }

    /// A whole interval has passed since the previous frame was taken, or
    /// there was none.
    pub open spec fn interval_elapsed(self, now: int) -> bool {
        match self.last_frame_at {
            Some(last) => elapsed(last, now) >= self.interval,
            None => true,
        }
    }

    /// The earliest instant, not before `now`, that keeps the interval to the
    /// previous frame.
    pub open spec fn clock_slot(self, now: int) -> int {
        match self.last_frame_at {
            Some(last) => if last + self.interval >= now {
                last + self.interval
            } else {
                now
            },
            None => now,
        }
    }

    /// Whether demand at `now` needs a vsync callback posted for it.
    pub open spec fn posts(self, now: int) -> bool {
        !self.has_demand() && self.vsync && !self.interval_elapsed(now)
    }

    /// The state after demand at `now`.
    pub open spec fn scheduled(self, now: int) -> PacerState {
        if self.has_demand() {
            self
        } else if !self.vsync {
            PacerState { fallback_due_at: Some(self.clock_slot(now)), ..self }
        } else if self.interval_elapsed(now) {
            PacerState { due: true, ..self }
        } else {
            PacerState { posted: true, ..self }
        }
    }

    /// The state after the vsync callback fired.
    pub open spec fn vsynced(self) -> PacerState {
        PacerState { posted: false, due: true, ..self }
    }

    /// A posted callback is forgotten.
    pub open spec fn unposted(self) -> PacerState {
        PacerState { posted: false, ..self }
    }

    /// Whether a frame can be taken at `now`.
    pub open spec fn frame_ready(self, now: int) -> bool {
        self.due || (self.fallback_due_at matches Some(at) && at <= now)
    }

    /// The state after asking for a frame at `now`: a due frame goes before
    /// one that waited on the clock.
    pub open spec fn taken(self, now: int) -> PacerState {
        if self.due {
            PacerState { due: false, last_frame_at: Some(now), ..self }
        } else if self.frame_ready(now) {
            PacerState { fallback_due_at: None, last_frame_at: Some(now), ..self }
        } else {
            self
        }
    }

    /// How long a loop may sleep at `now` before a frame can be taken; `None`
    /// when no frame comes by the passing of time alone.
    pub open spec fn sleep(self, now: int) -> Option<int> {
        if self.due {
            Some(0)
        } else {
            match self.fallback_due_at {
                Some(at) => Some(elapsed(now, at)),
                None => None,
            }
        }
    }

    pub open spec fn next(self, call: PacerCall) -> PacerState {
        match call {
            PacerCall::Schedule(now) => self.scheduled(now),
            PacerCall::OnVsync => self.vsynced(),
            PacerCall::TakeFrame(now) => self.taken(now),
            PacerCall::Resume(now) => self.unposted().scheduled(now),
        }
    }

    /// The state after a run of calls.
    pub open spec fn run(self, calls: Seq<PacerCall>) -> PacerState
        decreases calls.len(),
    {
        if calls.len() == 0 {
            self
        } else {
            self.run(calls.drop_last()).next(calls.last())
        }
    }

    /// The instants at which a run of calls takes its frames.
    pub open spec fn frames(self, calls: Seq<PacerCall>) -> Seq<int>
        decreases calls.len(),
    {
        if calls.len() == 0 {
            Seq::empty()
        } else {
            let before = self.frames(calls.drop_last());
            match calls.last() {
                PacerCall::TakeFrame(now) => if self.run(calls.drop_last()).frame_ready(now) {
                    before.push(now)
                } else {
                    before
                },
                _ => before,
            }
        }
    }

    /// A frame was asked for, or a vsync came, since the run last took one.
    pub open spec fn asked_since_frame(self, calls: Seq<PacerCall>) -> bool
        decreases calls.len(),
    {
        if calls.len() == 0 {
            false
        } else {
            let before = calls.drop_last();
            if calls.last() is TakeFrame {
                self.frames(calls).len() == self.frames(before).len() && self.asked_since_frame(
                    before,
                )
            } else {
                true
            }
        }
    }

    /// Whether `now` is an interval or more after the last frame that a run
    /// took, or there was none.
    pub open spec fn is_late(self, calls: Seq<PacerCall>, now: int) -> bool {
        let frames = self.frames(calls);
        frames.len() == 0 || elapsed(frames.last(), now) >= self.interval
    }

    /// How many vsync callbacks a run of calls posts.
    pub open spec fn post_count(self, calls: Seq<PacerCall>) -> nat
        decreases calls.len(),
    {
        if calls.len() == 0 {
            0
        } else {
            let state = self.run(calls.drop_last());
            let posts = match calls.last() {
                PacerCall::Schedule(now) => state.posts(now),
                PacerCall::Resume(now) => state.unposted().posts(now),
                _ => false,
            };
            self.post_count(calls.drop_last()) + if posts {
                1nat
            } else {
                0nat
            }
        }
    }
}

impl View for FramePacer {
    type V = PacerState;

    closed spec fn view(&self) -> PacerState {
        PacerState {
            vsync: self.vsync,
            interval: self.interval@,
            posted: self.posted,
            due: self.due,
            fallback_due_at: instant_view(self.fallback_due_at),
            last_frame_at: instant_view(self.last_frame_at),
        }
    }
}

impl FramePacer {
    /// A pacer driven by a vsync source. `interval` is the display's refresh
    /// interval.
    pub fn with_vsync(interval: Duration) -> (pacer: FramePacer)
        ensures
            pacer@ == PacerState::fresh(true, interval@),
            pacer@.wf(),
    {
        FramePacer {
            vsync: true,
            interval,
            posted: false,
            due: false,
            fallback_due_at: None,
            last_frame_at: None,
        }
    }

    /// A pacer without a vsync source, spacing frames `interval` apart.
    pub fn with_clock(interval: Duration) -> (pacer: FramePacer)
        ensures
            pacer@ == PacerState::fresh(false, interval@),
            pacer@.wf(),
    {
        FramePacer {
            vsync: false,
            interval,
            posted: false,
            due: false,
            fallback_due_at: None,
            last_frame_at: None,
        }
    }

    /// Records demand for a frame and returns whether the host has to post one
    /// vsync callback that ends in [`on_vsync`](Self::on_vsync). The first
    /// demand since the last frame posts; later ones ride on it. Demand that
    /// arrives an interval or more after the last frame began is due at once
    /// (see the module docs).
    #[must_use]
    pub fn schedule(&mut self, now: Instant) -> (post: bool)
        requires
            !old(self)@.vsync && !old(self)@.has_demand() ==> old(self)@.clock_slot(now@)
                <= u128::MAX,
        ensures
            final(self)@ == old(self)@.scheduled(now@),
            post == old(self)@.posts(now@),
            old(self)@.wf() ==> final(self)@.wf(),
    {
        if self.posted || self.due || self.fallback_due_at.is_some() {
            return false;
        }
        if !self.vsync {
            let earliest = match self.last_frame_at {
                Some(last) => last.after(self.interval),
                None => now,
            };
            self.fallback_due_at = Some(earliest.max(now));
            return false;
        }
        let interval_elapsed = match self.last_frame_at {
            Some(last) => now.duration_since(last).nanos >= self.interval.nanos,
            None => true,
        };
        if interval_elapsed {
            self.due = true;
            false
        } else {
            self.posted = true;
            true
        }
    }

    /// The posted vsync callback fired: the frame it owes is now due.
    pub fn on_vsync(&mut self)
        ensures
            final(self)@ == old(self)@.vsynced(),
            old(self)@.wf() ==> final(self)@.wf(),
    {
        self.posted = false;
        self.due = true;
    }

    /// Takes the due frame, if any. The loop draws when this returns `true`
    /// and only then; a frame left untaken (window inactive) stays due.
    #[must_use]
    pub fn take_frame(&mut self, now: Instant) -> (draw: bool)
        ensures
            final(self)@ == old(self)@.taken(now@),
            draw == old(self)@.frame_ready(now@),
            old(self)@.wf() ==> final(self)@.wf(),
    {
        if self.due {
            self.due = false;
            self.last_frame_at = Some(now);
            return true;
        }
        if let Some(due_at) = self.fallback_due_at {
            if due_at.nanos <= now.nanos {
                self.fallback_due_at = None;
                self.last_frame_at = Some(now);
                return true;
            }
        }
        false
    }

    /// Whether a frame is wanted: posted, due, or waiting on the fallback
    /// clock.
    pub fn has_demand(&self) -> (wanted: bool)
        ensures
            wanted == self@.has_demand(),
    {
        self.posted || self.due || self.fallback_due_at.is_some()
    }

    /// Forgets a posted callback (the vsync source may have been paused while
    /// the app was in the background) and schedules afresh so demand that
    /// piled up meanwhile is served; returns whether to post a callback. A
    /// stale callback that fires later marks one extra frame due, which GPUI
    /// answers with a no-op when nothing is dirty.
    #[must_use]
    pub fn resume(&mut self, now: Instant) -> (post: bool)
        requires
            !old(self)@.vsync && !old(self)@.unposted().has_demand() ==> old(self)@.clock_slot(now@)
                <= u128::MAX,
        ensures
            final(self)@ == old(self)@.unposted().scheduled(now@),
            post == old(self)@.unposted().posts(now@),
            old(self)@.wf() ==> final(self)@.wf(),
    {
        self.posted = false;
        self.schedule(now)
    }

    /// How long the loop may block before it has something to do: zero while a
    /// frame is due, the time until the fallback frame otherwise, and `None`
    /// when only the vsync callback or an unrelated wakeup can bring work.
    pub fn poll_timeout(&self, now: Instant) -> (timeout: Option<Duration>)
        ensures
            duration_view(timeout) == self@.sleep(now@),
    {
        if self.due {
            return Some(Duration { nanos: 0 });
        }
        match self.fallback_due_at {
            Some(due_at) => Some(due_at.duration_since(now)),
            None => None,
        }
    }
}

/// Demand is folded: while a frame is wanted already, more demand changes
/// nothing and posts nothing.
pub proof fn demand_is_folded(state: PacerState, now: int)
    requires
        state.has_demand(),
    ensures
        state.scheduled(now) == state,
        !state.posts(now),
{
}

/// Demand is served: once raised, a frame is wanted until it is taken. Only
/// taking a frame ever withdraws demand.
pub proof fn demand_is_kept_until_a_frame_is_taken(state: PacerState, call: PacerCall)
    ensures
        call is Schedule || call is Resume || call is OnVsync ==> state.next(call).has_demand(),
        state.has_demand() && !state.next(call).has_demand() ==> (call matches PacerCall::TakeFrame(
            now,
        ) && state.frame_ready(now)),
{
}

/// A vsync owes exactly one frame: the first request after it draws, and no
/// later one does before new demand or another vsync.
pub proof fn a_vsync_owes_exactly_one_frame(state: PacerState, first: int, later: int)
    requires
        state.wf(),
        state.vsync,
    ensures
        state.vsynced().frame_ready(first),
        !state.vsynced().taken(first).frame_ready(later),
        !state.vsynced().taken(first).has_demand(),
{
}

/// A frame left untaken stays due through everything but taking it.
pub proof fn an_untaken_frame_stays_due(state: PacerState, calls: Seq<PacerCall>)
    requires
        state.due,
        forall|i: int| 0 <= i < calls.len() ==> !(calls[i] is TakeFrame),
    ensures
        state.run(calls).due,
    decreases calls.len(),
{
    if calls.len() > 0 {
        an_untaken_frame_stays_due(state, calls.drop_last());
        assert(!(calls.last() is TakeFrame));
    }
}

/// However often a window is notified between two vsyncs, one callback is
/// posted, nothing is drawn before it fires, and it draws one frame.
pub proof fn demand_between_two_vsyncs_draws_once(
    state: PacerState,
    calls: Seq<PacerCall>,
    now: int,
    later: int,
)
    requires
        state.wf(),
        state.vsync,
        !state.has_demand(),
        calls.len() > 0,
        forall|i: int| 0 <= i < calls.len() ==> (#[trigger] calls[i] matches PacerCall::Schedule(at)
            && !state.interval_elapsed(at)),
    ensures
        state.post_count(calls) == 1,
        !state.run(calls).frame_ready(now),
        state.run(calls).vsynced().frame_ready(now),
        !state.run(calls).vsynced().taken(now).frame_ready(later),
{
    notifications_post_once(state, calls);
}

proof fn notifications_post_once(state: PacerState, calls: Seq<PacerCall>)
    requires
        state.wf(),
        state.vsync,
        !state.has_demand(),
        calls.len() > 0,
        forall|i: int| 0 <= i < calls.len() ==> (#[trigger] calls[i] matches PacerCall::Schedule(at)
            && !state.interval_elapsed(at)),
    ensures
        state.post_count(calls) == 1,
        state.run(calls) == (PacerState { posted: true, ..state }),
    decreases calls.len(),
{
    let before = calls.drop_last();
    assert(calls.last() == calls[calls.len() - 1]);
    if before.len() > 0 {
        assert forall|i: int| 0 <= i < before.len() implies (
        #[trigger] before[i] matches PacerCall::Schedule(at) && !state.interval_elapsed(at)) by {
            assert(before[i] == calls[i]);
        }
        notifications_post_once(state, before);
    } else {
        assert(state.run(before) == state);
        assert(state.post_count(before) == 0);
    }
}

/// A loop that fell behind is not made to wait: when a whole interval has
/// passed since the last frame, or there was none, demand is due at once and
/// posts nothing; within the interval it waits for the vsync it posts.
pub proof fn a_late_frame_is_served_at_once(state: PacerState, now: int)
    requires
        state.wf(),
        state.vsync,
        !state.has_demand(),
    ensures
        state.interval_elapsed(now) ==> !state.posts(now) && state.scheduled(now).frame_ready(now),
        !state.interval_elapsed(now) ==> state.posts(now) && !state.scheduled(now).frame_ready(now)
            && state.scheduled(now).sleep(now) is None,
{
}

/// A callback that was posted before a pause is posted again on resume, and
/// both of them firing still make one frame.
pub proof fn resume_reposts_and_stale_callbacks_fold(
    state: PacerState,
    now: int,
    first: int,
    later: int,
)
    requires
        state.wf(),
        state.posted,
    ensures
        !state.interval_elapsed(now) ==> state.unposted().posts(now),
        state.unposted().scheduled(now).has_demand(),
        state.next(PacerCall::Resume(now)).vsynced().vsynced() == state.next(
            PacerCall::Resume(now),
        ).vsynced(),
        !state.next(PacerCall::Resume(now)).vsynced().vsynced().taken(first).frame_ready(later),
{
}

/// The loop is told the truth about sleeping: the timeout is zero exactly when
/// a frame can be taken, and sleeping for it is just long enough.
pub proof fn the_timeout_is_when_a_frame_can_be_taken(state: PacerState, now: int)
    ensures
        state.sleep(now) == Some(0int) <==> state.frame_ready(now),
        state.sleep(now) matches Some(span) ==> span >= 0 && state.frame_ready(now + span) && (
        forall|early: int| now <= early < now + span ==> !state.frame_ready(early)),
        state.sleep(now) is None ==> forall|at: int| !state.frame_ready(at),
{
}

/// The interval is measured from the last frame that was drawn: whatever the
/// calls so far, the pacer remembers when it took the last frame, and that it
/// took none before the first. Its source and its interval never change.
pub proof fn the_interval_is_measured_from_the_last_frame(
    vsync: bool,
    interval: int,
    calls: Seq<PacerCall>,
)
    ensures
        ({
            let fresh = PacerState::fresh(vsync, interval);
            let state = fresh.run(calls);
            let frames = fresh.frames(calls);
            &&& frames.len() == 0 ==> state.last_frame_at is None
            &&& frames.len() > 0 ==> state.last_frame_at == Some(frames.last())
            &&& state.interval == interval
            &&& state.vsync == vsync
        }),
    decreases calls.len(),
{
    if calls.len() > 0 {
        the_interval_is_measured_from_the_last_frame(vsync, interval, calls.drop_last());
    }
}

/// A frame is wanted exactly when one was asked for since the last one was
/// taken; the vsyncs of a clock, which has none, do not count.
pub proof fn a_frame_is_wanted_since_it_was_asked_for(
    vsync: bool,
    interval: int,
    calls: Seq<PacerCall>,
)
    requires
        vsync || forall|k: int| 0 <= k < calls.len() ==> !(calls[k] is OnVsync),
    ensures
        ({
            let fresh = PacerState::fresh(vsync, interval);
            &&& fresh.run(calls).has_demand() <==> fresh.asked_since_frame(calls)
            &&& fresh.run(calls).wf()
        }),
    decreases calls.len(),
{
    if calls.len() > 0 {
        let before = calls.drop_last();
        assert forall|k: int| 0 <= k < before.len() implies before[k] == calls[k] by {}
        a_frame_is_wanted_since_it_was_asked_for(vsync, interval, before);
        the_interval_is_measured_from_the_last_frame(vsync, interval, before);
        assert(calls.last() == calls[calls.len() - 1]);
        if !vsync {
            assert(!(calls.last() is OnVsync));
            clock_run_invariant(interval, before);
        }
    }
}

/// Pacing by vsync, after any run of calls. Demand that is the first since the
/// last frame is ready at once if it is late; otherwise it posts a callback,
/// and nothing but the vsync makes it ready, however long it takes. More demand
/// posts nothing and makes nothing ready. A resume posts afresh unless a frame
/// is ready or late by then. A vsync makes a frame ready, and taking a frame
/// leaves none.
pub proof fn demand_waits_for_its_vsync(
    interval: int,
    calls: Seq<PacerCall>,
    call: PacerCall,
    at: int,
)
    ensures
        ({
            let fresh = PacerState::fresh(true, interval);
            let state = fresh.run(calls);
            let ready = state.next(call).frame_ready(at);
            &&& call matches PacerCall::Schedule(now) ==> {
                let first = !fresh.asked_since_frame(calls);
                &&& state.posts(now) <==> first && !fresh.is_late(calls, now)
                &&& first ==> (ready <==> fresh.is_late(calls, now))
                &&& !first ==> (ready <==> state.frame_ready(at))
            }
            &&& call matches PacerCall::Resume(now) ==> {
                &&& state.unposted().posts(now) <==> !state.frame_ready(at) && !fresh.is_late(
                    calls,
                    now,
                )
                &&& ready <==> state.frame_ready(at) || fresh.is_late(calls, now)
            }
            &&& call is OnVsync ==> ready
            &&& call is TakeFrame ==> !ready
        }),
{
    a_frame_is_wanted_since_it_was_asked_for(true, interval, calls);
    the_interval_is_measured_from_the_last_frame(true, interval, calls);
}

/// Pacing by the clock, after any run of calls. The first demand since the last
/// frame is ready from the instant on that is both not before it and an
/// interval after that frame. More demand and a resume move that instant
/// neither back nor forth, nothing is ever posted, and a frame that is taken
/// leaves none.
pub proof fn demand_waits_for_the_interval(
    interval: int,
    calls: Seq<PacerCall>,
    call: PacerCall,
    at: int,
)
    requires
        forall|k: int| 0 <= k < calls.len() ==> !(calls[k] is OnVsync),
        interval >= 0,
    ensures
        ({
            let fresh = PacerState::fresh(false, interval);
            let state = fresh.run(calls);
            let frames = fresh.frames(calls);
            let ready = state.next(call).frame_ready(at);
            let first = !fresh.asked_since_frame(calls);
            &&& call matches PacerCall::Schedule(now) ==> !state.posts(now)
            &&& call matches PacerCall::Resume(now) ==> !state.unposted().posts(now)
            &&& (call matches PacerCall::Schedule(now) || call matches PacerCall::Resume(now)) ==> {
                let now = match call {
                    PacerCall::Schedule(now) => now,
                    PacerCall::Resume(now) => now,
                    _ => 0,
                };
                &&& first ==> (ready <==> at >= now && (frames.len() > 0 ==> at >= frames.last()
                    + interval))
                &&& !first ==> (ready <==> state.frame_ready(at))
            }
            &&& call matches PacerCall::TakeFrame(now) ==> (ready <==> !state.frame_ready(now)
                && state.frame_ready(at))
        }),
{
    a_frame_is_wanted_since_it_was_asked_for(false, interval, calls);
    the_interval_is_measured_from_the_last_frame(false, interval, calls);
    clock_run_invariant(interval, calls);
}

/// By the clock, frames keep their distance: any two frames that follow each
/// other are at least an interval apart.
pub proof fn the_clock_spaces_frames_by_the_interval(interval: int, calls: Seq<PacerCall>, i: int)
    requires
        forall|k: int| 0 <= k < calls.len() ==> !(calls[k] is OnVsync),
        0 <= i,
        i + 1 < PacerState::fresh(false, interval).frames(calls).len(),
    ensures
        ({
            let frames = PacerState::fresh(false, interval).frames(calls);
            frames[i + 1] - frames[i] >= interval
        }),
{
    clock_run_invariant(interval, calls);
}

/// What holds by the clock after any run without vsyncs.
spec fn clock_run_ok(interval: int, calls: Seq<PacerCall>) -> bool {
    let state = PacerState::fresh(false, interval).run(calls);
    let frames = PacerState::fresh(false, interval).frames(calls);
    &&& state.wf()
    &&& !state.vsync
    &&& !state.due
    &&& state.interval == interval
    &&& frames.len() == 0 ==> state.last_frame_at is None
    &&& frames.len() > 0 ==> state.last_frame_at == Some(frames.last())
    &&& state.fallback_due_at is Some && state.last_frame_at is Some
        ==> state.fallback_due_at->0 >= state.last_frame_at->0 + interval
    &&& forall|i: int, j: int|
        0 <= i && j == i + 1 && j < frames.len() ==> #[trigger] frames[j] - #[trigger] frames[i]
            >= interval
}

proof fn clock_run_invariant(interval: int, calls: Seq<PacerCall>)
    requires
        forall|k: int| 0 <= k < calls.len() ==> !(calls[k] is OnVsync),
    ensures
        clock_run_ok(interval, calls),
    decreases calls.len(),
{
    if calls.len() > 0 {
        clock_run_invariant(interval, calls.drop_last());
        assert(!(calls.last() is OnVsync));
    }
}

} // verus!
