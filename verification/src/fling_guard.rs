//! Keeps a touch that lands during a fling from inheriting the fling's axis.
//!
//! GPUI's touch recognizer stops scroll momentum when a new contact begins and
//! treats that contact as a pan from its first pixel, locked to the axis of
//! the fling it stopped. A quick sideways swipe followed by a swipe up then
//! produces only horizontal deltas, and the page looks frozen until the finger
//! lifts. The same catch also swallows control drags: a contact that catches a
//! fling is never offered as a touch drag.
//!
//! The recognizer takes its momentum on *every* start of a contact, and a
//! contact that is cancelled while still pending emits nothing. So before a
//! real contact that may land on momentum, the guard relays a synthetic
//! contact that begins and is cancelled at the same point: it stops the
//! momentum, and the real contact then begins on an idle recognizer. When no
//! momentum is left the synthetic pair is a no-op.
//!
//! The recognizer's momentum is not visible from the platform, so the guard
//! estimates it: momentum can only follow the release of a contact that
//! panned, and no fling outlives [`MOMENTUM_WINDOW_SECS`]. What the guard
//! cannot restore is the catching contact's no-tap rule: a contact that stops
//! a fling and lifts without moving is an ordinary tap here.

use crate::time::{instant_view, Duration, Instant};
use std::collections::HashMap;
use vstd::arithmetic::power2;
use vstd::prelude::*;

verus! {

broadcast use vstd::std_specs::hash::group_hash_axioms;

/// Longer than any fling the recognizer runs.
pub const MOMENTUM_WINDOW_SECS: u64 = 4;

/// The recognizer's touch slop in pixels: a contact that moved past it panned
/// and may have flung on release; one that did not was a tap or a long press.
pub const PAN_SLOP: u64 = 8;

/// The slop as the bits of a double.
pub const PAN_SLOP_BITS: u64 = 0x4020_0000_0000_0000;

/// Infinity as the bits of a double. What lies above is not a number, or
/// carries a sign.
pub const INFINITY_BITS: u64 = 0x7ff0_0000_0000_0000;

/// Which touch an event belongs to.
#[derive(Clone, Copy, Debug, PartialEq, Eq, Structural)]
pub struct TouchId(pub u64);

#[derive(Clone, Copy, Debug, PartialEq, Eq, Structural)]
pub enum TouchPhase {
    Started,
    Moved,
    Ended,
    Cancelled,
}

/// A raw touch event. `P` is a position in the window, `F` a touch force.
#[derive(Debug, PartialEq, Eq)]
pub struct TouchEvent<P, F> {
    pub id: TouchId,
    pub phase: TouchPhase,
    pub position: P,
    pub predicted_position: Option<P>,
    pub force: Option<F>,
}

/// Where a live contact began, and whether it has moved past the slop.
pub struct Contact<P> {
    pub start: P,
    pub panned: bool,
}

/// Relays raw contacts to GPUI, disarming a possible fling before a contact
/// that would otherwise catch it.
pub struct FlingGuard<P> {
    contacts: HashMap<u64, Contact<P>>,
    /// Momentum may be running until this instant.
    momentum_until: Option<Instant>,
}

/// What a [`FlingGuard`] remembers.
#[verifier::ext_equal]
pub ghost struct GuardState<P> {
    pub contacts: Map<u64, Contact<P>>,
    pub momentum_until: Option<int>,
}

impl<P> View for FlingGuard<P> {
    type V = GuardState<P>;

    closed spec fn view(&self) -> GuardState<P> {
        GuardState {
            contacts: self.contacts@,
            momentum_until: instant_view(self.momentum_until),
        }
    }
}

/// A double that is not negative, in units of the smallest one: its bits are
/// an exponent over a 52-bit fraction.
pub open spec fn double_units(bits: u64) -> nat {
    let exponent = bits as nat / 0x10_0000_0000_0000;
    let fraction = bits as nat % 0x10_0000_0000_0000;
    if exponent == 0 {
        fraction
    } else {
        (0x10_0000_0000_0000 + fraction) * power2::pow2((exponent - 1) as nat)
    }
}

/// The distance of which `bits` are the double is longer than the slop. The
/// smallest double is 2 to the -1074; neither a negative number nor one that
/// is none is longer than anything.
pub open spec fn past_slop(bits: u64) -> bool {
    bits <= INFINITY_BITS && double_units(bits) > PAN_SLOP * power2::pow2(1074)
}

impl<P> GuardState<P> {
    /// The live contact that `event` belongs to is known and has panned.
    pub open spec fn has_panned(self, id: TouchId) -> bool {
        self.contacts.contains_key(id.0) && self.contacts[id.0].panned
    }

    /// `event` begins a contact while momentum may still be running.
    pub open spec fn catches<F>(self, event: TouchEvent<P, F>, now: int) -> bool {
        event.phase is Started && (self.momentum_until matches Some(until) && now < until)
    }

    /// Where the contact began whose travel `event` has to be measured for: a
    /// live contact that moves and has not panned yet.
    pub open spec fn measured<F>(self, event: TouchEvent<P, F>) -> Option<P> {
        if event.phase is Moved && self.contacts.contains_key(event.id.0)
            && !self.contacts[event.id.0].panned {
            Some(self.contacts[event.id.0].start)
        } else {
            None
        }
    }

    /// `event` releases a contact that panned, which may fling.
    pub open spec fn flings<F>(self, event: TouchEvent<P, F>) -> bool {
        event.phase is Ended && self.has_panned(event.id)
    }

    /// The state after `event` at `now`; `panned` is what measuring said, where
    /// anything was measured.
    pub open spec fn after<F>(self, event: TouchEvent<P, F>, now: int, panned: bool) -> GuardState<
        P,
    > {
        match event.phase {
            TouchPhase::Started => GuardState {
                contacts: self.contacts.insert(
                    event.id.0,
                    Contact { start: event.position, panned: false },
                ),
                momentum_until: None,
            },
            TouchPhase::Moved => match self.measured(event) {
                Some(start) => GuardState {
                    contacts: self.contacts.insert(event.id.0, Contact { start, panned }),
                    ..self
                },
                None => self,
            },
            TouchPhase::Ended => GuardState {
                contacts: self.contacts.remove(event.id.0),
                momentum_until: if self.flings(event) {
                    Some(now + MOMENTUM_WINDOW_SECS * 1_000_000_000)
                } else {
                    self.momentum_until
                },
            },
            TouchPhase::Cancelled => GuardState {
                contacts: self.contacts.remove(event.id.0),
                ..self
            },
        }
    }

    /// What reaches GPUI for `event`: the event, and before it a contact `id`
    /// that begins and is cancelled at the same point when it would catch a
    /// fling.
    pub open spec fn relayed<F>(self, event: TouchEvent<P, F>, now: int, id: TouchId) -> Seq<
        TouchEvent<P, F>,
    > {
        if self.catches(event, now) {
            seq![
                synthetic(id, TouchPhase::Started, event.position),
                synthetic(id, TouchPhase::Cancelled, event.position),
                event,
            ]
        } else {
            seq![event]
        }
    }
}

/// A contact that the guard makes up.
pub open spec fn synthetic<P, F>(id: TouchId, phase: TouchPhase, position: P) -> TouchEvent<P, F> {
    TouchEvent { id, phase, position, predicted_position: None, force: None }
}

/// Doubles that are not negative compare as their bits do: a distance is past
/// the slop exactly when its bits are above those of the slop, up to infinity.
pub proof fn slop_bits(bits: u64)
    ensures
        past_slop(bits) <==> PAN_SLOP_BITS < bits <= INFINITY_BITS,
{
    let exponent = bits as nat / 0x10_0000_0000_0000;
    let fraction = bits as nat % 0x10_0000_0000_0000;
    let low = power2::pow2(1024);
    let one = power2::pow2(1025);
    let high = power2::pow2(1026);
    power2::lemma_pow2_pos(1024);
    power2::lemma_pow2_unfold(1025);
    power2::lemma_pow2_unfold(1026);
    // 8 * 2^1074 is 2^52 * 2^1025.
    power2::lemma2_to64();
    power2::lemma2_to64_rest();
    power2::lemma_pow2_adds(3, 1074);
    power2::lemma_pow2_adds(52, 1025);
    let limit = PAN_SLOP * power2::pow2(1074);
    assert(limit == 0x10_0000_0000_0000 * one);
    if exponent == 0 {
        assert(fraction < 0x10_0000_0000_0000 * one) by (nonlinear_arith)
            requires
                fraction < 0x10_0000_0000_0000,
                one >= 1,
        ;
    } else {
        let scale = power2::pow2((exponent - 1) as nat);
        let digits = 0x10_0000_0000_0000 + fraction;
        if exponent < 1026 {
            if exponent < 1025 {
                power2::lemma_pow2_strictly_increases(
                    (exponent - 1) as nat,
                    1024,
                );
            }
            assert(digits * scale < 0x20_0000_0000_0000 * low) by (nonlinear_arith)
                requires
                    0 <= digits < 0x20_0000_0000_0000,
                    0 <= scale <= low,
                    low > 0,
            ;
        } else if exponent == 1026 {
            assert(digits * one > 0x10_0000_0000_0000 * one <==> fraction > 0) by (nonlinear_arith)
                requires
                    digits == 0x10_0000_0000_0000 + fraction,
                    0 <= fraction,
                    one > 0,
            ;
        } else {
            if exponent > 1027 {
                power2::lemma_pow2_strictly_increases(
                    1026,
                    (exponent - 1) as nat,
                );
            }
            assert(digits * scale >= 0x10_0000_0000_0000 * high) by (nonlinear_arith)
                requires
                    digits >= 0x10_0000_0000_0000,
                    scale >= high,
                    high > 0,
            ;
        }
    }
}

/// Whether a distance, given as the bits of a double, is longer than the slop.
pub fn is_past_slop(travelled: u64) -> (past: bool)
    ensures
        past == past_slop(travelled),
        past == (PAN_SLOP_BITS < travelled <= INFINITY_BITS),
{
    proof {
        slop_bits(travelled);
    }
    PAN_SLOP_BITS < travelled && travelled <= INFINITY_BITS
}

impl<P: Copy> FlingGuard<P> {
    pub fn new() -> (guard: FlingGuard<P>)
        ensures
            guard@ == (GuardState { contacts: Map::<u64, Contact<P>>::empty(), momentum_until: None }),
    {
        FlingGuard { contacts: HashMap::new(), momentum_until: None }
    }

    /// Whether `event` begins a contact while momentum may still be running,
    /// so that relaying it takes a synthetic contact.
    pub fn catches<F>(&self, event: &TouchEvent<P, F>, now: Instant) -> (catches: bool)
        ensures
            catches == self@.catches(*event, now@),
    {
        match event.phase {
            TouchPhase::Started => match self.momentum_until {
                Some(until) => now.nanos < until.nanos,
                None => false,
            },
            _ => false,
        }
    }

    /// Where the contact began whose travel has to be measured for `event`.
    pub fn measured<F>(&self, event: &TouchEvent<P, F>) -> (start: Option<P>)
        ensures
            start == self@.measured(*event),
    {
        match event.phase {
            TouchPhase::Moved => match self.contacts.get(&event.id.0) {
                Some(contact) => {
                    if contact.panned {
                        None
                    } else {
                        Some(contact.start)
                    }
                },
                None => None,
            },
            _ => None,
        }
    }

    /// Relays `event` at `now`. The synthetic contact, if one is needed, gets
    /// `id`; `panned` is whether the contact has travelled past the slop, if
    /// that is in question. Returns what reaches GPUI, in order.
    pub fn relay_measured<F>(
        &mut self,
        event: TouchEvent<P, F>,
        now: Instant,
        id: TouchId,
        panned: bool,
    ) -> (relayed: Vec<TouchEvent<P, F>>)
        requires
            old(self)@.flings(event) ==> now@ + MOMENTUM_WINDOW_SECS * 1_000_000_000 <= u128::MAX,
        ensures
            relayed@ == old(self)@.relayed(event, now@, id),
            final(self)@ == old(self)@.after(event, now@, panned),
    {
        let mut relayed: Vec<TouchEvent<P, F>> = Vec::new();
        match event.phase {
            TouchPhase::Started => {
                if self.catches(&event, now) {
                    relayed.push(
                        TouchEvent {
                            id,
                            phase: TouchPhase::Started,
                            position: event.position,
                            predicted_position: None,
                            force: None,
                        },
                    );
                    relayed.push(
                        TouchEvent {
                            id,
                            phase: TouchPhase::Cancelled,
                            position: event.position,
                            predicted_position: None,
                            force: None,
                        },
                    );
                }
                self.momentum_until = None;
                self.contacts.insert(event.id.0, Contact { start: event.position, panned: false });
            },
            TouchPhase::Moved => {
                if let Some(start) = self.measured(&event) {
                    self.contacts.insert(event.id.0, Contact { start, panned });
                }
            },
            TouchPhase::Ended => {
                if let Some(contact) = self.contacts.remove(&event.id.0) {
                    if contact.panned {
                        self.momentum_until = Some(
                            now.after(Duration::from_secs(MOMENTUM_WINDOW_SECS)),
                        );
                    }
                }
            },
            // A cancelled pan never flings.
            TouchPhase::Cancelled => {
                self.contacts.remove(&event.id.0);
            },
        }
        relayed.push(event);
        relayed
    }

    /// Relays `event` at `now`, preceded by a synthetic contact when it begins
    /// while momentum may still be running. `next_id` allocates the synthetic
    /// contact's ID from the same sequence as the platform's real ones, and is
    /// asked only when one is needed. `travelled` measures the distance between
    /// two positions, as the bits of a double, and is asked only for a contact
    /// that has not panned yet. Returns what reaches GPUI, in order.
    pub fn relay_at<F, N: FnOnce() -> TouchId, T: FnOnce(P, P) -> u64>(
        &mut self,
        event: TouchEvent<P, F>,
        now: Instant,
        next_id: N,
        travelled: T,
    ) -> (relayed: Vec<TouchEvent<P, F>>)
        requires
            old(self)@.flings(event) ==> now@ + MOMENTUM_WINDOW_SECS * 1_000_000_000 <= u128::MAX,
            old(self)@.catches(event, now@) ==> next_id.requires(()),
            old(self)@.measured(event) matches Some(start) ==> travelled.requires(
                (start, event.position),
            ),
        ensures
            !old(self)@.catches(event, now@) ==> relayed@ == seq![event],
            old(self)@.catches(event, now@) ==> exists|id: TouchId|
                #[trigger] next_id.ensures((), id) && relayed@ == old(self)@.relayed(event, now@, id),
            old(self)@.measured(event) is None ==> final(self)@ == old(self)@.after(
                event,
                now@,
                false,
            ),
            old(self)@.measured(event) matches Some(start) ==> exists|bits: u64|
                #[trigger] travelled.ensures((start, event.position), bits) && final(self)@
                    == old(self)@.after(event, now@, past_slop(bits)),
    {
        let id = if self.catches(&event, now) {
            next_id()
        } else {
            TouchId(0)
        };
        let panned = match self.measured(&event) {
            Some(start) => is_past_slop(travelled(start, event.position)),
            None => false,
        };
        self.relay_measured(event, now, id, panned)
    }
}

/// One event, when it came, and what measuring its contact said.
pub ghost struct Touch<P, F> {
    pub event: TouchEvent<P, F>,
    pub now: int,
    pub panned: bool,
}

impl<P> GuardState<P> {
    /// The state after a run of events.
    pub open spec fn run<F>(self, touches: Seq<Touch<P, F>>) -> GuardState<P>
        decreases touches.len(),
    {
        if touches.len() == 0 {
            self
        } else {
            let last = touches.last();
            self.run(touches.drop_last()).after(last.event, last.now, last.panned)
        }
    }

    /// When the last contact that panned was released, if no contact has begun
    /// since.
    pub open spec fn released_at<F>(self, touches: Seq<Touch<P, F>>) -> Option<int>
        decreases touches.len(),
    {
        if touches.len() == 0 {
            None
        } else {
            let before = touches.drop_last();
            let last = touches.last();
            if last.event.phase is Started {
                None
            } else if last.event.phase is Ended && self.run(before).has_panned(last.event.id) {
                Some(last.now)
            } else {
                self.released_at(before)
            }
        }
    }

    /// No contact, and no momentum.
    pub open spec fn idle() -> GuardState<P> {
        GuardState { contacts: Map::empty(), momentum_until: None }
    }

    /// Some event of the run releases a contact that panned.
    pub open spec fn flings_in<F>(self, touches: Seq<Touch<P, F>>) -> bool
        decreases touches.len(),
    {
        touches.len() > 0 && (self.flings_in(touches.drop_last()) || self.run(
            touches.drop_last(),
        ).flings(touches.last().event))
    }
}

/// The event of a run with which the contact `id` began, while it lives.
pub open spec fn began<P, F>(touches: Seq<Touch<P, F>>, id: u64) -> Option<int>
    decreases touches.len(),
{
    if touches.len() == 0 {
        None
    } else {
        let last = touches.last().event;
        if last.id.0 != id || last.phase is Moved {
            began(touches.drop_last(), id)
        } else if last.phase is Started {
            Some(touches.len() - 1)
        } else {
            None
        }
    }
}

/// Some movement of the contact `id` after event `start` of a run went `far`
/// from where the contact was then.
pub open spec fn went_far<P, F>(
    touches: Seq<Touch<P, F>>,
    id: u64,
    start: int,
    far: spec_fn(P, P) -> bool,
) -> bool {
    exists|k: int|
        start < k < touches.len() && #[trigger] touches[k].event.id.0 == id
            && touches[k].event.phase is Moved && far(
            touches[start].event.position,
            touches[k].event.position,
        )
}

/// Wherever the guard asks how far a contact has travelled, the answer is
/// whether it is `far` from the position of the event it began with.
pub open spec fn measured_from_the_start<P, F>(
    touches: Seq<Touch<P, F>>,
    far: spec_fn(P, P) -> bool,
) -> bool {
    forall|k: int|
        0 <= k < touches.len() && GuardState::<P>::idle().run(#[trigger] touches.take(k)).measured(
            touches[k].event,
        ) is Some ==> (began(touches.take(k), touches[k].event.id.0) matches Some(start)
            && touches[k].panned == far(
            touches[start].event.position,
            touches[k].event.position,
        ))
}

/// A live contact is measured from where it began: whatever it and other
/// contacts did since, the guard remembers the position it began at, asks for
/// its travel from there until it has panned, and holds it to have panned
/// exactly when some movement of it went far from there.
pub proof fn a_contact_is_measured_from_where_it_began<P, F>(
    touches: Seq<Touch<P, F>>,
    id: TouchId,
    far: spec_fn(P, P) -> bool,
    next: TouchEvent<P, F>,
)
    requires
        measured_from_the_start(touches, far),
        next.id == id,
        next.phase is Moved,
    ensures
        ({
            let state = GuardState::<P>::idle().run(touches);
            match began(touches, id.0) {
                Some(start) => {
                    let panned = went_far(touches, id.0, start, far);
                    &&& 0 <= start < touches.len()
                    &&& touches[start].event.phase is Started && touches[start].event.id == id
                    &&& state.contacts.contains_key(id.0)
                    &&& state.contacts[id.0].start == touches[start].event.position
                    &&& state.has_panned(id) <==> panned
                    &&& panned ==> state.measured(next) is None
                    &&& !panned ==> state.measured(next) == Some(touches[start].event.position)
                },
                None => {
                    &&& !state.contacts.contains_key(id.0)
                    &&& !state.has_panned(id)
                    &&& state.measured(next) is None
                },
            }
        }),
{
    start_is_remembered(touches, id);
    panning_is_going_far(touches, id, far);
}

proof fn start_is_remembered<P, F>(touches: Seq<Touch<P, F>>, id: TouchId)
    ensures
        ({
            let state = GuardState::<P>::idle().run(touches);
            match began(touches, id.0) {
                Some(start) => {
                    &&& 0 <= start < touches.len()
                    &&& touches[start].event.phase is Started && touches[start].event.id == id
                    &&& state.contacts.contains_key(id.0)
                    &&& state.contacts[id.0].start == touches[start].event.position
                },
                None => !state.contacts.contains_key(id.0),
            }
        }),
    decreases touches.len(),
{
    if touches.len() > 0 {
        start_is_remembered(touches.drop_last(), id);
    }
}

proof fn panning_is_going_far<P, F>(
    touches: Seq<Touch<P, F>>,
    id: TouchId,
    far: spec_fn(P, P) -> bool,
)
    requires
        measured_from_the_start(touches, far),
    ensures
        began(touches, id.0) matches Some(start) ==> (GuardState::<P>::idle().run(
            touches,
        ).has_panned(id) <==> went_far(touches, id.0, start, far)),
    decreases touches.len(),
{
    if touches.len() > 0 {
        let before = touches.drop_last();
        let end = touches.len() - 1;
        let last = touches.last();
        measured_before(touches, far);
        panning_is_going_far(before, id, far);
        start_is_remembered(touches, id);
        start_is_remembered(before, id);
        if began(touches, id.0) is Some {
            let start = began(touches, id.0)->0;
            went_far_before(touches, id.0, start, far);
            if start < end && last.event.id.0 == id.0 {
                assert(touches.take(end) == before);
                assert(touches[end] == last);
                assert(last.event.id == id);
            }
        }
    }
}

proof fn measured_before<P, F>(touches: Seq<Touch<P, F>>, far: spec_fn(P, P) -> bool)
    requires
        touches.len() > 0,
        measured_from_the_start(touches, far),
    ensures
        measured_from_the_start(touches.drop_last(), far),
{
    let before = touches.drop_last();
    assert forall|k: int|
        0 <= k < before.len() && GuardState::<P>::idle().run(#[trigger] before.take(k)).measured(
            before[k].event,
        ) is Some implies (began(before.take(k), before[k].event.id.0) matches Some(start)
        && before[k].panned == far(before[start].event.position, before[k].event.position)) by {
        assert(before.take(k) == touches.take(k));
        began_lies_within(touches.take(k), touches[k].event.id.0);
    }
}

proof fn went_far_before<P, F>(
    touches: Seq<Touch<P, F>>,
    id: u64,
    start: int,
    far: spec_fn(P, P) -> bool,
)
    requires
        0 <= start < touches.len(),
    ensures
        start < touches.len() - 1 ==> (went_far(touches, id, start, far) <==> went_far(
            touches.drop_last(),
            id,
            start,
            far,
        ) || (touches.last().event.id.0 == id && touches.last().event.phase is Moved && far(
            touches[start].event.position,
            touches.last().event.position,
        ))),
        start == touches.len() - 1 ==> !went_far(touches, id, start, far),
{
    let before = touches.drop_last();
    let end = touches.len() - 1;
    if start < end {
        if went_far(before, id, start, far) {
            let k = choose|k: int|
                start < k < before.len() && #[trigger] before[k].event.id.0 == id
                    && before[k].event.phase is Moved && far(
                    before[start].event.position,
                    before[k].event.position,
                );
            assert(touches[k].event.id.0 == id);
        }
        if went_far(touches, id, start, far) {
            let k = choose|k: int|
                start < k < touches.len() && #[trigger] touches[k].event.id.0 == id
                    && touches[k].event.phase is Moved && far(
                    touches[start].event.position,
                    touches[k].event.position,
                );
            if k < end {
                assert(before[k].event.id.0 == id);
            }
        }
        assert(touches[end] == touches.last());
        assert(touches[end].event.id.0 == touches.last().event.id.0);
    }
}

proof fn began_lies_within<P, F>(touches: Seq<Touch<P, F>>, id: u64)
    ensures
        began(touches, id) matches Some(start) ==> 0 <= start < touches.len(),
    decreases touches.len(),
{
    if touches.len() > 0 {
        began_lies_within(touches.drop_last(), id);
    }
}

/// Momentum may run for four seconds from the last release of a contact that
/// panned, and from no other event; a contact that begins ends it. A contact is
/// disarmed exactly when it begins within that time, by one that begins and is
/// cancelled where it begins.
pub proof fn momentum_follows_the_last_release<P, F>(
    touches: Seq<Touch<P, F>>,
    next: TouchEvent<P, F>,
    now: int,
    id: TouchId,
)
    ensures
        ({
            let state = GuardState::<P>::idle().run(touches);
            let relayed = state.relayed(next, now, id);
            let released = GuardState::<P>::idle().released_at(touches);
            let armed = released matches Some(at) && now < at + 4_000_000_000;
            &&& released is Some <==> state.momentum_until is Some
            &&& released matches Some(at) ==> state.momentum_until == Some(at + 4_000_000_000)
            &&& relayed.last() == next
            &&& next.phase is Started && armed ==> {
                &&& relayed.len() == 3
                &&& relayed[0].phase is Started && relayed[1].phase is Cancelled
                &&& forall|i: int|
                    0 <= i < 2 ==> (#[trigger] relayed[i]).id == id && relayed[i].position
                        == next.position && relayed[i].predicted_position is None
                        && relayed[i].force is None
            }
            &&& !(next.phase is Started && armed) ==> relayed.len() == 1
        }),
    decreases touches.len(),
{
    if touches.len() > 0 {
        momentum_follows_the_last_release(touches.drop_last(), next, now, id);
    }
}

/// Every event is relayed, once and last. What comes before it is nothing, or
/// one contact that begins and is cancelled at the event's own position.
pub proof fn every_event_is_relayed<P, F>(
    state: GuardState<P>,
    event: TouchEvent<P, F>,
    now: int,
    id: TouchId,
)
    ensures
        ({
            let relayed = state.relayed(event, now, id);
            let before = relayed.drop_last();
            &&& relayed.last() == event
            &&& before.len() == 0 || before == seq![
                synthetic::<P, F>(id, TouchPhase::Started, event.position),
                synthetic::<P, F>(id, TouchPhase::Cancelled, event.position),
            ]
            &&& before.len() > 0 ==> event.phase is Started
        }),
{
    let before = state.relayed(event, now, id).drop_last();
    if !state.catches(event, now) {
        assert(before == Seq::<TouchEvent<P, F>>::empty());
    } else {
        assert(before == seq![
            synthetic::<P, F>(id, TouchPhase::Started, event.position),
            synthetic::<P, F>(id, TouchPhase::Cancelled, event.position),
        ]);
    }
}

/// A contact that begins within the momentum window after a pan was released
/// is preceded by a cancelled one; from the window's end on it is relayed as
/// it is.
pub proof fn a_contact_after_a_release_is_disarmed<P, F>(
    state: GuardState<P>,
    release: TouchEvent<P, F>,
    released_at: int,
    panned: bool,
    next: TouchEvent<P, F>,
    now: int,
    id: TouchId,
)
    requires
        state.flings(release),
        next.phase is Started,
    ensures
        ({
            let armed = state.after(release, released_at, panned);
            let window = MOMENTUM_WINDOW_SECS * 1_000_000_000;
            &&& now < released_at + window ==> armed.relayed(next, now, id).len() == 3
            &&& now >= released_at + window ==> armed.relayed(next, now, id) == seq![next]
        }),
{
}

/// Until the next contact begins the guard stays armed: whatever the other
/// contacts do meanwhile, the contact is disarmed within the window of the
/// release.
pub proof fn the_guard_stays_armed_until_a_contact_begins<P, F>(
    state: GuardState<P>,
    release: Touch<P, F>,
    touches: Seq<Touch<P, F>>,
    next: TouchEvent<P, F>,
    now: int,
    id: TouchId,
)
    requires
        state.flings(release.event),
        forall|i: int| 0 <= i < touches.len() ==> !((#[trigger] touches[i]).event.phase is Started),
        forall|i: int| 0 <= i < touches.len() ==> (#[trigger] touches[i]).now >= release.now,
        next.phase is Started,
        now < release.now + MOMENTUM_WINDOW_SECS * 1_000_000_000,
    ensures
        ({
            let armed = state.after(release.event, release.now, release.panned).run(touches);
            &&& armed.momentum_until is Some
            &&& armed.momentum_until->0 >= release.now + MOMENTUM_WINDOW_SECS * 1_000_000_000
            &&& armed.relayed(next, now, id).len() == 3
        }),
    decreases touches.len(),
{
    if touches.len() > 0 {
        assert(touches.last() == touches[touches.len() - 1]);
        the_guard_stays_armed_until_a_contact_begins(
            state,
            release,
            touches.drop_last(),
            next,
            now,
            id,
        );
    }
}

/// The guard is armed once per release: once a contact has begun, nothing is
/// disarmed again until another contact that panned is released.
pub proof fn the_guard_is_armed_once_per_release<P, F>(
    state: GuardState<P>,
    start: Touch<P, F>,
    touches: Seq<Touch<P, F>>,
    next: TouchEvent<P, F>,
    now: int,
    id: TouchId,
)
    requires
        start.event.phase is Started,
        !state.after(start.event, start.now, start.panned).flings_in(touches),
    ensures
        ({
            let begun = state.after(start.event, start.now, start.panned);
            &&& begun.run(touches).momentum_until is None
            &&& begun.run(touches).relayed(next, now, id) == seq![next]
        }),
    decreases touches.len(),
{
    if touches.len() > 0 {
        the_guard_is_armed_once_per_release(state, start, touches.drop_last(), next, now, id);
    }
}

/// Only the release of a contact that panned arms the guard: a tap, a long
/// press and a cancelled pan do not, and neither does a contact it never saw
/// begin.
pub proof fn only_a_released_pan_arms_the_guard<P, F>(
    state: GuardState<P>,
    event: TouchEvent<P, F>,
    now: int,
    panned: bool,
)
    ensures
        ({
            let after = state.after(event, now, panned);
            after.momentum_until is Some && after.momentum_until != state.momentum_until
                ==> event.phase is Ended && state.has_panned(event.id)
        }),
{
}

/// A contact pans when it has travelled past the slop, stays panned until it
/// lifts, and is forgotten then.
pub proof fn a_contact_pans_until_it_lifts<P, F>(
    state: GuardState<P>,
    event: TouchEvent<P, F>,
    now: int,
    panned: bool,
)
    ensures
        ({
            let after = state.after(event, now, panned);
            &&& after.has_panned(event.id) ==> event.phase is Moved && (state.has_panned(event.id)
                || (state.measured(event) is Some && panned))
            &&& event.phase is Moved && state.has_panned(event.id) ==> after.has_panned(event.id)
            &&& event.phase is Ended || event.phase is Cancelled ==> !after.contacts.contains_key(
                event.id.0,
            )
            &&& forall|other: TouchId| other != event.id ==> (#[trigger] after.has_panned(other)
                <==> state.has_panned(other))
        }),
{
    let after = state.after(event, now, panned);
    assert forall|other: TouchId| other != event.id implies (#[trigger] after.has_panned(other)
        <==> state.has_panned(other)) by {
        assert(other.0 != event.id.0);
    }
}

} // verus!
