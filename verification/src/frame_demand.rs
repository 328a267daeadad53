//! Frame demand shared between GPUI's window invalidator and a host-driven
//! frame source (a `CADisplayLink` on iOS).
//!
//! GPUI asks for a frame when a view is notified, when an animation wants the
//! next frame, or when a frame it just drew left the window dirty. The host
//! pauses its frame source after a tick that produced no demand and resumes it
//! when [`FrameDemand::wake`] hands out its waker, so an idle screen costs no
//! CPU at all.

use vstd::prelude::*;

verus! {

/// Frame demand and the waker of the host that serves it. `W` is whatever the
/// host registered to be resumed with; it is handed back, never called here.
pub struct FrameDemand<W> {
    /// A frame has been asked for since the host last ticked.
    pending: bool,
    host_waker: Option<W>,
}

/// What a [`FrameDemand`] remembers.
pub ghost struct DemandState<W> {
    pub pending: bool,
    pub host_waker: Option<W>,
}

/// One call on a [`FrameDemand`].
pub ghost enum DemandCall<W> {
    Wake,
    Clear,
    SetHostWaker(Option<W>),
}

impl<W> DemandState<W> {
    /// No demand and no host.
    pub open spec fn idle() -> Self {
        DemandState { pending: false, host_waker: None }
    }

    /// The state that `call` leaves behind.
    pub open spec fn next(self, call: DemandCall<W>) -> Self {
        match call {
            DemandCall::Wake => DemandState { pending: true, ..self },
            DemandCall::Clear => DemandState { pending: false, ..self },
            DemandCall::SetHostWaker(waker) => DemandState { host_waker: waker, ..self },
        }
    }

    /// The waker that `call` resumes the host with: the first demand of a tick
    /// resumes the host that is there, and a host that registers is resumed
    /// for the demand that was waiting for it.
    pub open spec fn resumes(self, call: DemandCall<W>) -> Option<W> {
        match call {
            DemandCall::Wake => if self.pending { None } else { self.host_waker },
            DemandCall::Clear => None,
            DemandCall::SetHostWaker(waker) => if self.pending { waker } else { None },
        }
    }

    /// The state after a run of calls.
    pub open spec fn run(self, calls: Seq<DemandCall<W>>) -> Self
        decreases calls.len(),
    {
        if calls.len() == 0 {
            self
        } else {
            self.run(calls.drop_last()).next(calls.last())
        }
    }

    /// The wakers that a run of calls resumes the host with, in order.
    pub open spec fn resumptions(self, calls: Seq<DemandCall<W>>) -> Seq<W>
        decreases calls.len(),
    {
        if calls.len() == 0 {
            Seq::empty()
        } else {
            let before = self.resumptions(calls.drop_last());
            match self.run(calls.drop_last()).resumes(calls.last()) {
                Some(waker) => before.push(waker),
                None => before,
            }
        }
    }

    /// Whether the host registered at the end of the run has been resumed
    /// since the last tick.
    pub open spec fn host_awake(self, calls: Seq<DemandCall<W>>) -> bool
        decreases calls.len(),
    {
        if calls.len() == 0 {
            false
        } else {
            let before = self.run(calls.drop_last());
            let call = calls.last();
            match call {
                DemandCall::Wake => before.resumes(call) is Some || self.host_awake(
                    calls.drop_last(),
                ),
                DemandCall::Clear => false,
                DemandCall::SetHostWaker(_) => before.resumes(call) is Some,
            }
        }
    }
}

impl<W> View for FrameDemand<W> {
    type V = DemandState<W>;

    closed spec fn view(&self) -> DemandState<W> {
        DemandState { pending: self.pending, host_waker: self.host_waker }
    }
}

impl<W> Default for FrameDemand<W> {
    fn default() -> (demand: Self)
        ensures
            demand@ == DemandState::<W>::idle(),
    {
        FrameDemand { pending: false, host_waker: None }
    }
}

impl<W: Copy> FrameDemand<W> {
    /// Records demand and, on the first demand since the last tick, returns
    /// the waker to resume the host's frame source with.
    #[must_use]
    pub fn wake(&mut self) -> (resume: Option<W>)
        ensures
            final(self)@ == old(self)@.next(DemandCall::Wake),
            resume == old(self)@.resumes(DemandCall::Wake),
    {
        if self.pending {
            return None;
        }
        self.pending = true;
        self.host_waker
    }

    /// Clears the demand at the start of a tick; a frame drawn in this tick
    /// re-raises it if it wants another.
    pub fn clear(&mut self)
        ensures
            final(self)@ == old(self)@.next(DemandCall::Clear),
    {
        self.pending = false;
    }

    pub fn is_pending(&self) -> (pending: bool)
        ensures
            pending == self@.pending,
    {
        self.pending
    }

    /// Registers (or, with `None`, clears) the host's waker. Demand that
    /// arrived before the host registered is delivered right away, by
    /// returning the waker.
    #[must_use]
    pub fn set_host_waker(&mut self, waker: Option<W>) -> (resume: Option<W>)
        ensures
            final(self)@ == old(self)@.next(DemandCall::SetHostWaker(waker)),
            resume == old(self)@.resumes(DemandCall::SetHostWaker(waker)),
    {
        self.host_waker = waker;
        if self.pending {
            waker
        } else {
            None
        }
    }
}

/// However often demand is raised within one tick, the host is resumed exactly
/// once for it, and the demand stays recorded.
pub proof fn wakes_resume_the_host_once_per_tick<W>(
    state: DemandState<W>,
    waker: W,
    calls: Seq<DemandCall<W>>,
)
    requires
        !state.pending,
        state.host_waker == Some(waker),
        calls.len() > 0,
        forall|i: int| 0 <= i < calls.len() ==> calls[i] == DemandCall::<W>::Wake,
    ensures
        state.resumptions(calls) == seq![waker],
        state.run(calls).pending,
    decreases calls.len(),
{
    let before = calls.drop_last();
    assert(calls.last() == DemandCall::<W>::Wake);
    if before.len() > 0 {
        wakes_resume_the_host_once_per_tick(state, waker, before);
    } else {
        assert(state.run(before) == state);
        assert(state.resumptions(before) == Seq::<W>::empty());
    }
}

/// Demand is never lost: whatever the calls so far, a host that is registered
/// while demand is pending has been resumed since its last tick.
pub proof fn pending_demand_has_resumed_its_host<W>(calls: Seq<DemandCall<W>>)
    ensures
        ({
            let state = DemandState::<W>::idle().run(calls);
            state.pending && state.host_waker is Some ==> DemandState::<W>::idle().host_awake(calls)
        }),
    decreases calls.len(),
{
    if calls.len() > 0 {
        pending_demand_has_resumed_its_host(calls.drop_last());
    }
}

/// Between two ticks, and while it stays registered, one host is resumed at
/// most once.
pub proof fn a_host_is_resumed_at_most_once_between_ticks<W>(
    state: DemandState<W>,
    calls: Seq<DemandCall<W>>,
)
    requires
        forall|i: int| 0 <= i < calls.len() ==> calls[i] == DemandCall::<W>::Wake,
    ensures
        state.resumptions(calls).len() <= 1,
        state.pending ==> state.resumptions(calls).len() == 0,
    decreases calls.len(),
{
    if calls.len() > 0 {
        let before = calls.drop_last();
        assert(calls.last() == DemandCall::<W>::Wake);
        a_host_is_resumed_at_most_once_between_ticks(state, before);
        if before.len() > 0 {
            wake_leaves_demand_pending(state, before);
        }
    }
}

proof fn wake_leaves_demand_pending<W>(state: DemandState<W>, calls: Seq<DemandCall<W>>)
    requires
        calls.len() > 0,
        calls.last() == DemandCall::<W>::Wake,
    ensures
        state.run(calls).pending,
{
}

/// A frame was asked for since the last tick.
pub open spec fn asked_since_tick<W>(calls: Seq<DemandCall<W>>) -> bool {
    exists|i: int|
        0 <= i < calls.len() && #[trigger] calls[i] is Wake && (forall|j: int|
            i < j < calls.len() ==> !(#[trigger] calls[j] is Clear))
}

/// The waker that was registered last, unless it was cleared since.
pub open spec fn registered<W>(calls: Seq<DemandCall<W>>) -> Option<W>
    decreases calls.len(),
{
    if calls.len() == 0 {
        None
    } else {
        match calls.last() {
            DemandCall::SetHostWaker(waker) => waker,
            _ => registered(calls.drop_last()),
        }
    }
}

/// Whatever the calls so far, demand is pending exactly when a frame was asked
/// for since the last tick, whoever registered or left meanwhile. The next
/// demand then resumes the host that registered last if it is the first since
/// the tick, a host that registers is resumed if demand waits for it, and
/// nothing else resumes anyone.
pub proof fn demand_is_what_was_asked_since_the_tick<W>(calls: Seq<DemandCall<W>>, waker: Option<W>)
    ensures
        ({
            let state = DemandState::<W>::idle().run(calls);
            let asked = asked_since_tick(calls);
            &&& state.pending <==> asked
            &&& state.host_waker == registered(calls)
            &&& asked ==> state.resumes(DemandCall::Wake) is None
            &&& !asked ==> state.resumes(DemandCall::Wake) == registered(calls)
            &&& asked ==> state.resumes(DemandCall::SetHostWaker(waker)) == waker
            &&& !asked ==> state.resumes(DemandCall::SetHostWaker(waker)) is None
            &&& state.resumes(DemandCall::Clear) is None
        }),
    decreases calls.len(),
{
    if calls.len() > 0 {
        let before = calls.drop_last();
        let last = calls.len() - 1;
        demand_is_what_was_asked_since_the_tick(before, waker);
        assert(calls[last] == calls.last());
        assert forall|i: int| 0 <= i < before.len() implies before[i] == calls[i] by {}
        if asked_since_tick(before) && !(calls.last() is Clear) {
            let i = choose|i: int|
                0 <= i < before.len() && #[trigger] before[i] is Wake && (forall|j: int|
                    i < j < before.len() ==> !(#[trigger] before[j] is Clear));
            assert(calls[i] is Wake);
            assert forall|j: int| i < j < calls.len() implies !(#[trigger] calls[j] is Clear) by {
                if j < last {
                    assert(!(before[j] is Clear));
                }
            }
        }
        if asked_since_tick(calls) {
            let i = choose|i: int|
                0 <= i < calls.len() && #[trigger] calls[i] is Wake && (forall|j: int|
                    i < j < calls.len() ==> !(#[trigger] calls[j] is Clear));
            if i < last {
                assert(!(calls[last] is Clear));
                assert(before[i] is Wake);
                assert forall|j: int| i < j < before.len() implies !(
                #[trigger] before[j] is Clear) by {
                    assert(!(calls[j] is Clear));
                }
            }
        }
        if calls.last() is Wake {
            assert(calls[last] is Wake);
        }
    }
}

/// Without a registered host demand is recorded all the same, and a host that
/// registers next is resumed for it.
pub proof fn demand_waits_for_a_host<W>(state: DemandState<W>, waker: W)
    requires
        state.host_waker is None,
    ensures
        state.resumes(DemandCall::Wake) is None,
        state.next(DemandCall::Wake).pending,
        state.next(DemandCall::Wake).resumes(DemandCall::SetHostWaker(Some(waker))) == Some(waker),
        !state.pending ==> state.resumes(DemandCall::SetHostWaker(Some(waker))) is None,
{
}

} // verus!
