//! Vsync-paced, demand-driven frames for the Android loops.
//!
//! The loop draws only when GPUI asked for a frame *and* a vsync has passed
//! since:
//!
//! 1. GPUI raises demand with [`schedule_frame`], a surface swap or a resume
//!    raise it with [`resume`], and other threads raise it with
//!    [`schedule_frame`] too, without a pacer of their own.
//! 2. The first demand since the last frame asks the vsync thread to post one
//!    frame callback ([`take_post_request`]). When it fires, the vsync thread
//!    marks a frame due with [`on_vsync`] and wakes the loop.
//! 3. The loop takes the due frame with [`take_frame`] (the host render thread
//!    by [`frame_wanted`](crate::android::host::frame_wanted)) and ticks GPUI
//!    once. A frame that left the window dirty re-raises demand from inside
//!    the tick, which posts the next callback.
//!
//! Between frames the loop blocks for as long as [`poll_timeout`] allows.
//!
//! The pacing itself is the [`FramePacer`]; it belongs to the loop thread and
//! is passed as the slot it was installed in, which is empty on every other
//! thread. The flags the threads share are a [`FrameSource`].

use crate::frame_pacer::{
    the_timeout_is_when_a_frame_can_be_taken, FramePacer, PacerCall, PacerState,
};
use crate::time::{elapsed, instant_view, Duration, Instant};
use vstd::prelude::*;

verus! {

/// Longest the loop blocks with nothing due; a missed wakeup costs at most
/// this much latency instead of a frozen app.
pub const IDLE_POLL_CAP_SECS: u64 = 1;

/// The refresh interval the pacer assumes: a frame slower than this stops
/// waiting for vsyncs, and the clock fallback spaces frames by it. 60 Hz is
/// the common case; a faster display only makes an overrunning frame wait one
/// extra vsync before pacing gives way.
pub const REFRESH_INTERVAL_MICROS: u64 = 16_667;

/// What the loop thread, the vsync thread and the other threads share. `L` is
/// a handle on a looper.
pub struct FrameSource<L> {
    /// The loop thread's looper, to wake it from other threads.
    main_looper: Option<L>,
    /// The vsync thread's looper, once it has a choreographer.
    vsync_looper: Option<L>,
    /// The loop asked the vsync thread to post a frame callback.
    post_requested: bool,
    /// A frame callback fired and its frame has not been handed to the pacer
    /// yet.
    frame_due: bool,
    /// Demand raised from a thread that is not the loop thread; the loop turns
    /// it into demand of its own on its next iteration.
    off_thread_demand: bool,
}

/// What a [`FrameSource`] remembers.
pub ghost struct SourceFlags<L> {
    pub main_looper: Option<L>,
    pub vsync_looper: Option<L>,
    pub post_requested: bool,
    pub frame_due: bool,
    pub off_thread_demand: bool,
}

impl<L> View for FrameSource<L> {
    type V = SourceFlags<L>;

    closed spec fn view(&self) -> SourceFlags<L> {
        SourceFlags {
            main_looper: self.main_looper,
            vsync_looper: self.vsync_looper,
            post_requested: self.post_requested,
            frame_due: self.frame_due,
            off_thread_demand: self.off_thread_demand,
        }
    }
}

impl<L> SourceFlags<L> {
    /// The loop thread has a looper, or none.
    pub open spec fn installed(self, looper: Option<L>) -> SourceFlags<L> {
        SourceFlags { main_looper: looper, ..self }
    }

    /// The vsync thread has reported.
    pub open spec fn vsync_ready(
        self,
        looper: Option<L>,
        has_choreographer: bool,
    ) -> SourceFlags<L> {
        if has_choreographer {
            SourceFlags { vsync_looper: looper, ..self }
        } else {
            self
        }
    }

    /// A requested callback has been handed out.
    pub open spec fn post_taken(self) -> SourceFlags<L> {
        SourceFlags { post_requested: false, ..self }
    }

    /// A frame callback has fired.
    pub open spec fn vsync_reported(self) -> SourceFlags<L> {
        SourceFlags { frame_due: true, ..self }
    }
}

/// The shared flags together with the pacer in the calling thread's slot.
pub ghost struct SourceState<L> {
    pub flags: SourceFlags<L>,
    pub pacer: Option<PacerState>,
}

/// What the thread that owns `slot` sees.
pub open spec fn seen_from<L>(source: FrameSource<L>, slot: Option<FramePacer>) -> SourceState<L> {
    SourceState {
        flags: source@,
        pacer: match slot {
            Some(pacer) => Some(pacer@),
            None => None,
        },
    }
}

impl<L> SourceState<L> {
    /// Nobody has asked for a frame that is still owed, and no vsync waits to
    /// be handed on.
    pub open spec fn is_idle(self) -> bool {
        &&& !self.flags.frame_due
        &&& !self.flags.off_thread_demand
        &&& self.pacer matches Some(pacer) ==> !pacer.has_demand()
    }

    /// The clock reaches far enough for demand at `now` to be given a slot.
    pub open spec fn can_schedule(self, now: int) -> bool {
        self.delivered().pacer matches Some(pacer) ==> (!pacer.vsync && !pacer.has_demand()
            ==> pacer.clock_slot(now) <= u128::MAX)
    }

    /// The clock reaches far enough for a resume at `now`.
    pub open spec fn can_resume(self, now: int) -> bool {
        self.delivered().pacer matches Some(pacer) ==> (!pacer.vsync
            && !pacer.unposted().has_demand() ==> pacer.clock_slot(now) <= u128::MAX)
    }

    /// The pacer has been told of a vsync that was reported since the last
    /// time. Without a pacer the report stays for the loop thread.
    pub open spec fn delivered(self) -> SourceState<L> {
        match self.pacer {
            Some(pacer) => SourceState {
                flags: SourceFlags { frame_due: false, ..self.flags },
                pacer: Some(
                    if self.flags.frame_due {
                        pacer.vsynced()
                    } else {
                        pacer
                    },
                ),
            },
            None => self,
        }
    }

    /// `pacer` has taken the place of the pacer; if it wants a callback, the
    /// vsync thread is asked to post one.
    pub open spec fn paced(self, pacer: PacerState, post: bool) -> SourceState<
        L,
    > {
        SourceState {
            flags: SourceFlags { post_requested: self.flags.post_requested || post, ..self.flags },
            pacer: Some(pacer),
        }
    }

    pub open spec fn with_off_thread_demand(self, demand: bool) -> SourceState<L> {
        SourceState {
            flags: SourceFlags { off_thread_demand: demand, ..self.flags },
            ..self
        }
    }

    /// The state after demand for a frame at `now`.
    pub open spec fn scheduled(self, now: int) -> SourceState<L> {
        match self.delivered().pacer {
            Some(pacer) => self.delivered().paced(pacer.scheduled(now), pacer.posts(now)),
            None => self.with_off_thread_demand(true),
        }
    }

    /// The looper to wake for demand at `now`: the vsync thread's for a
    /// callback it has to post, the loop's for demand from another thread.
    pub open spec fn schedule_wake(self, now: int) -> Option<L> {
        match self.delivered().pacer {
            Some(pacer) => if pacer.posts(now) {
                self.flags.vsync_looper
            } else {
                None
            },
            None => self.flags.main_looper,
        }
    }

    /// The state after a resume at `now`.
    pub open spec fn resumed(self, now: int) -> SourceState<L> {
        match self.delivered().pacer {
            Some(pacer) => self.delivered().paced(
                pacer.unposted().scheduled(now),
                pacer.unposted().posts(now),
            ),
            None => self.scheduled(now),
        }
    }

    /// The looper to wake for a resume at `now`.
    pub open spec fn resume_wake(self, now: int) -> Option<L> {
        match self.delivered().pacer {
            Some(pacer) => if pacer.unposted().posts(now) {
                self.flags.vsync_looper
            } else {
                None
            },
            None => self.flags.main_looper,
        }
    }

    /// Demand from other threads has become demand of this one.
    pub open spec fn collected(self, now: int) -> SourceState<L> {
        if self.flags.off_thread_demand {
            self.with_off_thread_demand(false).scheduled(now)
        } else {
            self
        }
    }

    /// Whether a frame can be taken at `now`, demand of other threads
    /// included.
    pub open spec fn frame_ready(self, now: int) -> bool {
        self.collected(now).delivered().pacer matches Some(pacer) && pacer.frame_ready(now)
    }

    /// The state after asking for a frame at `now`.
    pub open spec fn taken(self, now: int) -> SourceState<L> {
        let collected = self.collected(now).delivered();
        match collected.pacer {
            Some(pacer) => collected.paced(pacer.taken(now), false),
            None => collected,
        }
    }

    /// The looper to wake after asking for a frame at `now`.
    pub open spec fn take_wake(self, now: int) -> Option<L> {
        if self.flags.off_thread_demand {
            self.with_off_thread_demand(false).schedule_wake(now)
        } else {
            None
        }
    }

    /// The state after asking how long to block: only a loop that can draw
    /// asks the pacer.
    pub open spec fn polled(self, can_draw: bool) -> SourceState<L> {
        if can_draw {
            self.delivered()
        } else {
            self
        }
    }

    /// The longest the loop may block at `now`, before rounding: until the next
    /// delayed task, until the next frame if it can draw, and never longer
    /// than the cap.
    pub open spec fn block(self, now: int, next_delayed_task: Option<int>, can_draw: bool) -> int {
        let cap = (IDLE_POLL_CAP_SECS * 1_000_000_000) as int;
        let task = match next_delayed_task {
            Some(due) => elapsed(now, due),
            None => cap,
        };
        let frame = match self.delivered().pacer {
            Some(pacer) => match pacer.sleep(now) {
                Some(span) => if can_draw {
                    span
                } else {
                    cap
                },
                None => cap,
            },
            None => cap,
        };
        least(cap, least(task, frame))
    }
}

pub open spec fn least(a: int, b: int) -> int {
    if a <= b {
        a
    } else {
        b
    }
}

/// The fewest whole milliseconds that hold all of a span.
pub open spec fn rounded_up_millis(nanos: int) -> int {
    (nanos + 999_999) / 1_000_000
}

impl<L: Copy> FrameSource<L> {
    /// No looper and no demand.
    pub fn new() -> (source: Self)
        ensures
            source@ == (SourceFlags {
                main_looper: None::<L>,
                vsync_looper: None,
                post_requested: false,
                frame_due: false,
                off_thread_demand: false,
            }),
    {
        FrameSource {
            main_looper: None,
            vsync_looper: None,
            post_requested: false,
            frame_due: false,
            off_thread_demand: false,
        }
    }
}

/// Installs a pacer in the calling thread's slot, which makes it the loop
/// thread; `looper` is its looper. A pacer that is there stays. Without a
/// choreographer the pacer goes by a 60 Hz clock.
pub fn install<L: Copy>(
    source: &mut FrameSource<L>,
    slot: &mut Option<FramePacer>,
    looper: Option<L>,
    has_choreographer: bool,
)
    ensures
        final(source)@ == (SourceFlags { main_looper: looper, ..old(source)@ }),
        final(source)@ == old(source)@.installed(looper),
        *final(slot) is Some,
        *old(slot) is Some ==> *final(slot) == *old(slot),
        *old(slot) is None ==> (*final(slot))->0@ == PacerState::fresh(
            has_choreographer,
            REFRESH_INTERVAL_MICROS * 1_000,
        ),
{
    source.main_looper = looper;
    if slot.is_some() {
        return;
    }
    let interval = Duration::from_micros(REFRESH_INTERVAL_MICROS);
    *slot = Some(
        if has_choreographer {
            FramePacer::with_vsync(interval)
        } else {
            FramePacer::with_clock(interval)
        },
    );
}

/// The vsync thread reports its looper and whether it found a choreographer;
/// returns whether it has one to serve. Without one it stays unknown to the
/// loop.
pub fn vsync_thread_ready<L: Copy>(
    source: &mut FrameSource<L>,
    looper: Option<L>,
    has_choreographer: bool,
) -> (serve: bool)
    ensures
        serve == has_choreographer,
        final(source)@ == if has_choreographer {
            SourceFlags { vsync_looper: looper, ..old(source)@ }
        } else {
            old(source)@
        },
        final(source)@ == old(source)@.vsync_ready(looper, has_choreographer),
{
    if has_choreographer {
        source.vsync_looper = looper;
    }
    has_choreographer
}

/// Whether the vsync thread has to post a frame callback now; each request is
/// handed out once.
#[must_use]
pub fn take_post_request<L: Copy>(source: &mut FrameSource<L>) -> (post: bool)
    ensures
        post == old(source)@.post_requested,
        final(source)@ == (SourceFlags { post_requested: false, ..old(source)@ }),
        final(source)@ == old(source)@.post_taken(),
{
    let post = source.post_requested;
    source.post_requested = false;
    post
}

/// A frame callback fired on the vsync thread. Returns the looper of the loop
/// to wake.
#[must_use]
pub fn on_vsync<L: Copy>(source: &mut FrameSource<L>) -> (wake: Option<L>)
    ensures
        final(source)@ == (SourceFlags { frame_due: true, ..old(source)@ }),
        final(source)@ == old(source)@.vsync_reported(),
        wake == old(source)@.main_looper,
{
    source.frame_due = true;
    self::wake(source)
}

/// The looper that wakes the loop from any thread, so it notices work that
/// arrived outside of it. `None` before [`install`].
#[must_use]
pub fn wake<L: Copy>(source: &FrameSource<L>) -> (wake: Option<L>)
    ensures
        wake == source@.main_looper,
{
    source.main_looper
}

/// The calling thread's pacer, after handing it any vsync that was reported
/// since the last call.
fn with_pacer<'a, L: Copy>(
    source: &mut FrameSource<L>,
    slot: &'a mut Option<FramePacer>,
) -> (pacer: Option<&'a mut FramePacer>)
    ensures
        pacer is Some <==> *old(slot) is Some,
        pacer matches Some(pacer) ==> {
            &&& seen_from(*old(source), *old(slot)).delivered().pacer == Some((*pacer)@)
            &&& *final(slot) == Some(*final(pacer))
        },
        pacer is None ==> *final(slot) is None,
        final(source)@ == (SourceFlags {
            frame_due: old(source)@.frame_due && *old(slot) is None,
            ..old(source)@
        }),
{
    match slot {
        Some(pacer) => {
            if source.frame_due {
                source.frame_due = false;
                pacer.on_vsync();
            }
            Some(pacer)
        },
        None => None,
    }
}

/// Asks for a frame at the next vsync. On the loop thread this asks for the
/// callback (once); from any other thread it records the demand and wakes the
/// loop so it can ask. Returns the looper to wake.
#[must_use]
pub fn schedule_frame<L: Copy>(
    source: &mut FrameSource<L>,
    slot: &mut Option<FramePacer>,
    now: Instant,
) -> (wake: Option<L>)
    requires
        seen_from(*old(source), *old(slot)).can_schedule(now@),
    ensures
        seen_from(*final(source), *final(slot)) == seen_from(*old(source), *old(slot)).scheduled(now@),
        wake == seen_from(*old(source), *old(slot)).schedule_wake(now@),
{
    match with_pacer(source, slot) {
        Some(pacer) => {
            if pacer.schedule(now) {
                source.post_requested = true;
                source.vsync_looper
            } else {
                None
            }
        },
        None => {
            source.off_thread_demand = true;
            self::wake(source)
        },
    }
}

/// Asks for the vsync callback again after a surface swap or a resume: one
/// posted before the app went to the background may never fire. Returns the
/// looper to wake.
#[must_use]
pub fn resume<L: Copy>(
    source: &mut FrameSource<L>,
    slot: &mut Option<FramePacer>,
    now: Instant,
) -> (wake: Option<L>)
    requires
        seen_from(*old(source), *old(slot)).can_resume(now@),
    ensures
        seen_from(*final(source), *final(slot)) == seen_from(*old(source), *old(slot)).resumed(now@),
        wake == seen_from(*old(source), *old(slot)).resume_wake(now@),
{
    match with_pacer(source, slot) {
        Some(pacer) => {
            if pacer.resume(now) {
                source.post_requested = true;
                source.vsync_looper
            } else {
                None
            }
        },
        None => {
            source.off_thread_demand = true;
            self::wake(source)
        },
    }
}

/// Whether the loop should tick GPUI now, and the looper to wake. Call once
/// per loop iteration, only while the window can draw; a frame left untaken
/// stays due.
#[must_use]
pub fn take_frame<L: Copy>(
    source: &mut FrameSource<L>,
    slot: &mut Option<FramePacer>,
    now: Instant,
) -> (result: (bool, Option<L>))
    requires
        old(source)@.off_thread_demand ==> seen_from(*old(source), *old(slot)).can_schedule(now@),
    ensures
        seen_from(*final(source), *final(slot)) == seen_from(*old(source), *old(slot)).taken(now@),
        result.0 == seen_from(*old(source), *old(slot)).frame_ready(now@),
        result.1 == seen_from(*old(source), *old(slot)).take_wake(now@),
{
    let wake = if source.off_thread_demand {
        source.off_thread_demand = false;
        schedule_frame(source, slot, now)
    } else {
        None
    };
    let draw = match with_pacer(source, slot) {
        Some(pacer) => pacer.take_frame(now),
        None => false,
    };
    (draw, wake)
}

/// How long the loop may block on its looper: zero with a frame due, up to the
/// next delayed dispatcher task or the fallback frame otherwise, and never
/// more than a second. `can_draw` is whether the loop would take a frame right
/// now; while the window is inactive a due frame stays owed but must not keep
/// the loop awake.
///
/// Loopers take whole milliseconds; the span is rounded up so a
/// sub-millisecond remainder does not become a zero-timeout spin.
pub fn poll_timeout<L: Copy>(
    source: &mut FrameSource<L>,
    slot: &mut Option<FramePacer>,
    now: Instant,
    next_delayed_task: Option<Instant>,
    can_draw: bool,
) -> (timeout: Duration)
    ensures
        timeout@ == 1_000_000 * rounded_up_millis(
            seen_from(*old(source), *old(slot)).block(
                now@,
                instant_view(next_delayed_task),
                can_draw,
            ),
        ),
        seen_from(*final(source), *final(slot)) == seen_from(*old(source), *old(slot)).polled(can_draw),
{
    let mut timeout = Duration::from_secs(IDLE_POLL_CAP_SECS);
    if let Some(due) = next_delayed_task {
        timeout = timeout.min(due.duration_since(now));
    }
    if can_draw {
        if let Some(pacer) = with_pacer(source, slot) {
            if let Some(frame) = pacer.poll_timeout(now) {
                timeout = timeout.min(frame);
            }
        }
    }
    Duration::from_millis(((timeout.nanos + 999_999) / 1_000_000) as u64)
}

/// A thread sees all of the flags, and the pacer in its own slot.
pub proof fn a_thread_sees_the_flags_and_its_pacer<L>(
    source: FrameSource<L>,
    slot: Option<FramePacer>,
)
    ensures
        seen_from(source, slot).flags == source@,
        seen_from(source, slot).pacer is Some <==> slot is Some,
        slot matches Some(pacer) ==> seen_from(source, slot).pacer == Some(pacer@),
{
}

/// Demand is never lost between threads: demand from a thread without a pacer
/// is recorded, wakes the loop, and reaches the loop's pacer when the loop next
/// asks for a frame.
pub proof fn off_thread_demand_reaches_the_pacer<L>(
    other: SourceState<L>,
    pacer: PacerState,
    then: int,
    now: int,
)
    requires
        other.pacer is None,
    ensures
        other.scheduled(then).flags.off_thread_demand,
        other.schedule_wake(then) == other.flags.main_looper,
        ({
            let seen = SourceState { flags: other.scheduled(then).flags, pacer: Some(pacer) };
            &&& !seen.taken(now).flags.off_thread_demand
            &&& seen.frame_ready(now) || seen.taken(now).pacer->0.has_demand()
        }),
{
}

/// A surface swap or a resume raises demand: a frame is owed on the loop
/// thread, and a resume from any other thread is recorded and wakes the loop.
pub proof fn a_resume_raises_demand<L>(state: SourceState<L>, now: int)
    ensures
        state.pacer is Some ==> state.resumed(now).pacer is Some && state.resumed(
            now,
        ).pacer->0.has_demand(),
        state.pacer is None ==> state.resumed(now).flags.off_thread_demand && state.resume_wake(now)
            == state.flags.main_looper,
{
}

/// A vsync that was reported is handed to the loop's pacer once: the next
/// request for a frame draws it, and by then the report is gone.
pub proof fn a_reported_vsync_is_drawn_once<L>(state: SourceState<L>, now: int, later: int)
    requires
        state.flags.frame_due,
        state.pacer matches Some(pacer) && pacer.wf() && pacer.vsync,
    ensures
        state.frame_ready(now),
        !state.taken(now).flags.frame_due,
        !state.taken(now).frame_ready(later),
{
}

/// A request for a callback goes to the vsync thread exactly when the pacer
/// posts one, and stays until the vsync thread takes it.
pub proof fn a_post_is_requested_until_taken<L>(state: SourceState<L>, now: int)
    ensures
        state.flags.post_requested ==> state.scheduled(now).flags.post_requested
            && state.resumed(now).flags.post_requested && state.taken(now).flags.post_requested,
        !state.flags.post_requested ==> (state.scheduled(now).flags.post_requested <==> (
        state.delivered().pacer matches Some(pacer) && pacer.posts(now))),
{
}

/// The loop never blocks longer than a second, does not block at all while a
/// frame it can draw is ready, and is not kept awake by one it cannot draw.
pub proof fn the_loop_sleeps_within_bounds<L>(
    state: SourceState<L>,
    now: int,
    next_delayed_task: Option<int>,
    can_draw: bool,
)
    ensures
        ({
            let block = state.block(now, next_delayed_task, can_draw);
            let millis = rounded_up_millis(block);
            &&& 0 <= block <= 1_000_000_000
            &&& 0 <= millis <= 1_000
            &&& can_draw && (state.delivered().pacer matches Some(pacer) && pacer.frame_ready(now))
                ==> millis == 0
            &&& !can_draw && next_delayed_task is None ==> millis == 1_000
            &&& next_delayed_task matches Some(due) ==> (due >= now ==> block <= due - now)
        }),
        state.polled(false) == state,
{
}

/// The loop sleeps exactly until the first thing is due: no task comes due and
/// no frame that it can draw gets ready while it sleeps, and when the span is
/// over one of them is, or a second has passed.
pub proof fn the_loop_wakes_for_the_first_thing_due<L>(
    state: SourceState<L>,
    now: int,
    next_delayed_task: Option<int>,
    can_draw: bool,
)
    ensures
        ({
            let until = now + state.block(now, next_delayed_task, can_draw);
            let pacer = state.delivered().pacer;
            &&& now <= until <= now + 1_000_000_000
            &&& next_delayed_task matches Some(due) ==> until == now || until <= due
            &&& can_draw && pacer is Some ==> forall|at: int|
                now <= at < until ==> !pacer->0.frame_ready(at)
            &&& {
                ||| until == now + 1_000_000_000
                ||| next_delayed_task is Some && until >= next_delayed_task->0
                ||| can_draw && pacer is Some && pacer->0.frame_ready(until)
            }
        }),
{
    if state.delivered().pacer is Some {
        the_timeout_is_when_a_frame_can_be_taken(state.delivered().pacer->0, now);
    }
}

/// On the loop thread the source adds nothing to its pacer and takes nothing
/// from it: each call hands it the vsync that was reported, if any, then the
/// demand of other threads where a frame is asked for, and then itself. The
/// vsync thread is asked and woken for exactly the callbacks that the pacer
/// posts, and the loopers stay.
pub proof fn the_loop_thread_goes_by_its_pacer<L>(
    state: SourceState<L>,
    pacer: PacerState,
    now: int,
)
    requires
        state.pacer == Some(pacer),
    ensures
        ({
            let told = if state.flags.frame_due {
                pacer.next(PacerCall::OnVsync)
            } else {
                pacer
            };
            let asked = if state.flags.off_thread_demand {
                told.next(PacerCall::Schedule(now))
            } else {
                told
            };
            let off_thread_posts = state.flags.off_thread_demand && told.posts(now);
            let resume_posts = told.unposted().posts(now);
            let scheduled = state.scheduled(now);
            let resumed = state.resumed(now);
            let taken = state.taken(now);
            &&& scheduled.pacer == Some(told.next(PacerCall::Schedule(now)))
            &&& resumed.pacer == Some(told.next(PacerCall::Resume(now)))
            &&& taken.pacer == Some(asked.next(PacerCall::TakeFrame(now)))
            &&& state.polled(true).pacer == Some(told)
            &&& state.frame_ready(now) == asked.frame_ready(now)
            &&& scheduled.flags.post_requested == (state.flags.post_requested || told.posts(now))
            &&& resumed.flags.post_requested == (state.flags.post_requested || resume_posts)
            &&& taken.flags.post_requested == (state.flags.post_requested || off_thread_posts)
            &&& state.schedule_wake(now) == if told.posts(now) {
                state.flags.vsync_looper
            } else {
                None
            }
            &&& state.resume_wake(now) == if resume_posts {
                state.flags.vsync_looper
            } else {
                None
            }
            &&& state.take_wake(now) == if off_thread_posts {
                state.flags.vsync_looper
            } else {
                None
            }
            &&& !scheduled.flags.frame_due && !resumed.flags.frame_due && !taken.flags.frame_due
            &&& scheduled.flags.off_thread_demand == state.flags.off_thread_demand
            &&& resumed.flags.off_thread_demand == state.flags.off_thread_demand
            &&& !taken.flags.off_thread_demand
            &&& !state.polled(true).flags.frame_due
            &&& state.polled(true).flags.post_requested == state.flags.post_requested
            &&& state.polled(true).flags.off_thread_demand == state.flags.off_thread_demand
        }),
{
}

/// A thread without a pacer changes nothing but the demand that it records: a
/// reported vsync and a requested callback stay for the threads they are meant
/// for, and it never draws.
pub proof fn other_threads_only_record_demand<L>(state: SourceState<L>, now: int, can_draw: bool)
    requires
        state.pacer is None,
    ensures
        state.scheduled(now).flags == (SourceFlags { off_thread_demand: true, ..state.flags }),
        state.resumed(now).flags == state.scheduled(now).flags,
        state.scheduled(now).pacer is None && state.resumed(now).pacer is None,
        state.schedule_wake(now) == state.flags.main_looper,
        state.resume_wake(now) == state.flags.main_looper,
        state.taken(now) == state && !state.frame_ready(now),
        state.polled(can_draw) == state,
{
}

/// Each thread reports one thing and leaves what the others reported: a looper
/// replaces none but its own, a request is handed out once, and a vsync is due
/// until the loop thread takes notice. A vsync thread without a choreographer
/// stays unknown.
pub proof fn each_report_says_one_thing<L>(flags: SourceFlags<L>, looper: Option<L>)
    ensures
        flags.installed(looper).main_looper == looper,
        flags.installed(looper).installed(flags.main_looper) == flags,
        flags.vsync_ready(looper, true).vsync_looper == looper,
        flags.vsync_ready(looper, true).vsync_ready(flags.vsync_looper, true) == flags,
        flags.vsync_ready(looper, false) == flags,
        !flags.post_taken().post_requested,
        !flags.post_requested ==> flags.post_taken() == flags,
        flags.post_requested ==> flags.post_taken().frame_due == flags.frame_due
            && flags.post_taken().off_thread_demand == flags.off_thread_demand
            && flags.post_taken().main_looper == flags.main_looper && flags.post_taken().vsync_looper
            == flags.vsync_looper,
        flags.vsync_reported().frame_due,
        flags.frame_due ==> flags.vsync_reported() == flags,
        flags.vsync_reported().post_requested == flags.post_requested,
        flags.vsync_reported().off_thread_demand == flags.off_thread_demand,
        flags.vsync_reported().main_looper == flags.main_looper,
        flags.vsync_reported().vsync_looper == flags.vsync_looper,
{
}

/// No call changes the loopers that the threads are woken with.
pub proof fn the_loopers_stay<L>(state: SourceState<L>, now: int, can_draw: bool)
    ensures
        state.scheduled(now).flags.main_looper == state.flags.main_looper,
        state.scheduled(now).flags.vsync_looper == state.flags.vsync_looper,
        state.resumed(now).flags.main_looper == state.flags.main_looper,
        state.resumed(now).flags.vsync_looper == state.flags.vsync_looper,
        state.taken(now).flags.main_looper == state.flags.main_looper,
        state.taken(now).flags.vsync_looper == state.flags.vsync_looper,
        state.polled(can_draw).flags.main_looper == state.flags.main_looper,
        state.polled(can_draw).flags.vsync_looper == state.flags.vsync_looper,
{
}

/// Rounding never becomes a zero-timeout spin: only an empty span is rounded
/// to nothing. No span is cut short, and rounding adds less than a
/// millisecond.
pub proof fn rounding_up_never_spins(nanos: int)
    requires
        nanos >= 0,
    ensures
        rounded_up_millis(nanos) == 0 <==> nanos == 0,
        nanos <= 1_000_000 * rounded_up_millis(nanos) < nanos + 1_000_000,
{
}

/// A loop without demand draws nothing, however long it waits, and asking for
/// a frame changes nothing.
pub proof fn an_idle_loop_draws_nothing<L>(state: SourceState<L>, now: int)
    requires
        state.is_idle(),
    ensures
        !state.frame_ready(now),
        state.take_wake(now) is None,
        state.taken(now) == state,
{
}

/// One round draws one frame for all the demand there was: after it the loop
/// is idle until a frame is asked for again.
pub proof fn a_drawn_frame_leaves_the_loop_idle<L>(state: SourceState<L>, now: int)
    requires
        state.pacer matches Some(pacer) && pacer.wf() && (pacer.vsync || !pacer.due
            && !state.flags.frame_due),
        state.frame_ready(now),
    ensures
        state.taken(now).is_idle(),
{
}

} // verus!
