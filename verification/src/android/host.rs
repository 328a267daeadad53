//! Host-driven Android entry point: a plain Java `Activity` owns a
//! `SurfaceView`, and GPUI runs on a **process-lived** render thread.
//!
//! The render thread is created once and outlives every Activity. Surfaces are
//! handed in and taken back through [`surface_created`] and
//! [`surface_destroyed`], the same way the background/foreground cycle does
//! it: the renderer and its atlas stay alive, and a new surface is re-attached
//! to them.
//!
//! # Threading contract
//!
//! - The Java UI thread calls [`surface_created`], [`surface_destroyed`],
//!   [`resumed`], [`paused`], [`touch`], [`key`] and [`ime_event`]. They only
//!   touch the command queue; each returns the looper to wake, if the render
//!   thread has one by now.
//! - The render thread takes the queued commands with [`take_commands`] and
//!   walks them with [`RenderThread::on_command`], which says what the
//!   platform has to do, and reports back how that went.
//! - A round of the render loop ends with a frame if [`frame_wanted`] says so,
//!   and with a sleep for as long as the frame source allows.
//! - After [`surface_destroyed`] the UI thread **blocks** by [`await_release`]
//!   until the render thread has stopped using the surface. That wait is
//!   mandatory: destroying a surface while a thread sits inside
//!   `ANativeWindow_lock` is a use-after-free.

use crate::android::frame_source::{seen_from, take_frame, FrameSource};
use crate::android::text_input::{enqueue, ImeEvent, ImeState};
use crate::frame_pacer::FramePacer;
use crate::time::{Duration, Instant};
use vstd::prelude::*;

verus! {

/// How long the UI thread waits for its surface. A stuck render thread must
/// not turn into an unresponsive app: this is far below the 5 s
/// input-dispatch timeout while being far above a worst-case frame.
pub const RELEASE_TIMEOUT_SECS: u64 = 2;

/// How long the UI thread sleeps between two looks at the surface.
pub const RELEASE_POLL_MICROS: u64 = 200;

/// A native window and the address that identifies it.
#[derive(Debug, PartialEq, Eq)]
pub struct NativeWindow<W> {
    pub handle: W,
    pub address: usize,
}

/// One pointer of a motion event, in physical pixels relative to the surface.
#[derive(Debug, PartialEq, Eq)]
pub struct TouchPoint<S> {
    pub id: i32,
    pub x: S,
    pub y: S,
    /// An `AMOTION_EVENT_ACTION_*` value reduced to a single pointer.
    pub action: u32,
}

/// A key event; `action` is `0` for down and `1` for up.
#[derive(Clone, Copy, Debug, PartialEq, Eq)]
pub struct AndroidKeyEvent {
    pub key_code: i32,
    pub action: i32,
    pub meta_state: i32,
    /// The character the key types, or zero.
    pub unicode_char: u32,
}

/// What the UI thread asks of the render thread. `W` is a handle on a native
/// window, `S` the type of coordinates and scale factors.
#[derive(Debug, PartialEq, Eq)]
pub enum Command<W, S> {
    SurfaceCreated { window: NativeWindow<W>, scale: S },
    SurfaceDestroyed,
    Resumed,
    Paused,
    Touch(TouchPoint<S>),
    Key(AndroidKeyEvent),
}

/// What the UI thread and the render thread share. `L` is a handle on the
/// render thread's looper.
pub struct Host<W, S, L> {
    /// The render thread has been spawned; guards against a second spawn.
    started: bool,
    /// The render thread's looper, so other threads can wake it.
    looper: Option<L>,
    /// Commands posted from the UI thread, taken by the render thread.
    commands: Vec<Command<W, S>>,
    /// Surfaces that were handed in and that the render thread has not come
    /// to yet.
    unhandled: u64,
    /// Set by the render thread once it has released the outgoing surface.
    surface_released: bool,
}

/// What a [`Host`] remembers.
pub ghost struct HostView<W, S, L> {
    pub started: bool,
    pub looper: Option<L>,
    pub commands: Seq<Command<W, S>>,
    pub unhandled: nat,
    pub surface_released: bool,
}

impl<W, S, L> HostView<W, S, L> {
    /// There is room to count one more surface.
    pub open spec fn can_post(self, command: Command<W, S>) -> bool {
        command is SurfaceCreated ==> self.unhandled < u64::MAX
    }

    /// `command` is queued behind the others; a surface is one more to handle.
    pub open spec fn posted(self, command: Command<W, S>) -> Self {
        HostView {
            commands: self.commands.push(command),
            unhandled: if command is SurfaceCreated {
                self.unhandled + 1
            } else {
                self.unhandled
            },
            ..self
        }
    }

    /// The render thread has been asked for.
    pub open spec fn asked_for(self) -> Self {
        HostView { started: true, ..self }
    }

    /// The render thread runs, and `looper` wakes it.
    pub open spec fn running(self, looper: L) -> Self {
        HostView { looper: Some(looper), ..self }
    }

    /// The queue has been taken.
    pub open spec fn taken(self) -> Self {
        HostView { commands: Seq::empty(), ..self }
    }

    /// The render thread has come to `command`: a surface counts as in use
    /// from here on.
    pub open spec fn reached(self, command: Command<W, S>) -> Self {
        if command is SurfaceCreated {
            HostView {
                unhandled: if self.unhandled > 0 {
                    (self.unhandled - 1) as nat
                } else {
                    0
                },
                surface_released: false,
                ..self
            }
        } else {
            self
        }
    }

    /// The render thread has detached the surface.
    pub open spec fn released(self) -> Self {
        HostView { surface_released: true, ..self }
    }

    /// The render thread uses no surface, and none is on its way to it.
    pub open spec fn let_go(self) -> bool {
        self.surface_released && self.unhandled == 0
    }

    /// How the wait for a surface goes on at `now`.
    pub open spec fn release_wait(self, deadline: int, now: int) -> ReleaseWait {
        if self.let_go() {
            ReleaseWait::Released
        } else if now >= deadline {
            ReleaseWait::TimedOut
        } else {
            ReleaseWait::Sleep(Duration { nanos: (RELEASE_POLL_MICROS * 1_000) as u128 })
        }
    }

    /// All of `commands` are queued, one after the other.
    pub open spec fn posted_all(self, commands: Seq<Command<W, S>>) -> Self
        decreases commands.len(),
    {
        if commands.len() == 0 {
            self
        } else {
            self.posted_all(commands.drop_last()).posted(commands.last())
        }
    }
}

impl<W, S, L> View for Host<W, S, L> {
    type V = HostView<W, S, L>;

    closed spec fn view(&self) -> HostView<W, S, L> {
        HostView {
            started: self.started,
            looper: self.looper,
            commands: self.commands@,
            unhandled: self.unhandled as nat,
            surface_released: self.surface_released,
        }
    }
}

/// How the wait for a surface goes on.
#[derive(Clone, Copy, Debug, PartialEq, Eq)]
pub enum ReleaseWait {
    /// The render thread has let go of the surface.
    Released,
    /// It has not, and the time for it is up.
    TimedOut,
    /// It has not; look again after sleeping for this long.
    Sleep(Duration),
}

impl<W, S, L: Copy> Host<W, S, L> {
    /// No render thread yet, and no surface that anyone uses.
    pub fn new() -> (host: Self)
        ensures
            host@ == (HostView {
                started: false,
                looper: None::<L>,
                commands: Seq::<Command<W, S>>::empty(),
                unhandled: 0,
                surface_released: true,
            }),
    {
        Host {
            started: false,
            looper: None,
            commands: Vec::new(),
            unhandled: 0,
            surface_released: true,
        }
    }

    /// How many surfaces the render thread has not come to yet.
    pub fn unhandled(&self) -> (unhandled: u64)
        ensures
            unhandled as nat == self@.unhandled,
    {
        self.unhandled
    }
}

/// Queues a command and returns the looper to wake for it.
#[must_use]
pub fn post<W, S, L: Copy>(host: &mut Host<W, S, L>, command: Command<W, S>) -> (wake: Option<L>)
    requires
        old(host)@.can_post(command),
    ensures
        final(host)@ == old(host)@.posted(command),
        wake == old(host)@.looper,
{
    if let Command::SurfaceCreated { .. } = &command {
        host.unhandled = host.unhandled + 1;
    }
    host.commands.push(command);
    wake_render_thread(host)
}

/// The looper that wakes the render thread, once it runs.
#[must_use]
pub fn wake_render_thread<W, S, L: Copy>(host: &Host<W, S, L>) -> (wake: Option<L>)
    ensures
        wake == host@.looper,
{
    host.looper
}

/// Asks for the render thread. Returns whether it has to be spawned: the first
/// call says so and later ones do not, which is what makes an Activity
/// recreation cheap.
#[must_use]
pub fn start<W, S, L: Copy>(host: &mut Host<W, S, L>) -> (spawn: bool)
    ensures
        spawn == !old(host)@.started,
        final(host)@ == (HostView { started: true, ..old(host)@ }),
        final(host)@ == old(host)@.asked_for(),
{
    let spawn = !host.started;
    host.started = true;
    spawn
}

/// The render thread runs, and `looper` wakes it.
pub fn render_thread_started<W, S, L: Copy>(host: &mut Host<W, S, L>, looper: L)
    ensures
        final(host)@ == (HostView { looper: Some(looper), ..old(host)@ }),
        final(host)@ == old(host)@.running(looper),
{
    host.looper = Some(looper);
}

/// Takes the queued commands, oldest first.
pub fn take_commands<W, S, L: Copy>(host: &mut Host<W, S, L>) -> (commands: Vec<Command<W, S>>)
    ensures
        commands@ == old(host)@.commands,
        final(host)@ == old(host)@.taken(),
{
    let mut commands: Vec<Command<W, S>> = Vec::new();
    std::mem::swap(&mut commands, &mut host.commands);
    commands
}

/// Hands a new surface to the render thread. May be called repeatedly for one
/// window.
#[must_use]
pub fn surface_created<W, S, L: Copy>(
    host: &mut Host<W, S, L>,
    window: NativeWindow<W>,
    scale: S,
) -> (wake: Option<L>)
    requires
        old(host)@.unhandled < u64::MAX,
    ensures
        final(host)@ == old(host)@.posted(Command::SurfaceCreated { window, scale }),
        wake == old(host)@.looper,
{
    post(host, Command::SurfaceCreated { window, scale })
}

/// Takes the surface back. The caller wakes the looper and then blocks by
/// [`await_release`] until the deadline returned here.
#[must_use]
pub fn surface_destroyed<W, S, L: Copy>(host: &mut Host<W, S, L>, now: Instant) -> (result: (
    Option<L>,
    Instant,
))
    requires
        now@ + RELEASE_TIMEOUT_SECS * 1_000_000_000 <= u128::MAX,
    ensures
        final(host)@ == old(host)@.posted(Command::SurfaceDestroyed),
        result.0 == old(host)@.looper,
        result.1@ == now@ + RELEASE_TIMEOUT_SECS * 1_000_000_000,
{
    let wake = post(host, Command::SurfaceDestroyed);
    (wake, now.after(Duration::from_secs(RELEASE_TIMEOUT_SECS)))
}

/// Whether the wait for the surface is over at `now`: once the render thread
/// has let go of it, and has no surface ahead that was handed in before.
pub fn await_release<W, S, L: Copy>(host: &Host<W, S, L>, deadline: Instant, now: Instant) -> (wait:
    ReleaseWait)
    ensures
        wait == host@.release_wait(deadline@, now@),
{
    if host.surface_released && host.unhandled == 0 {
        ReleaseWait::Released
    } else if now.nanos >= deadline.nanos {
        ReleaseWait::TimedOut
    } else {
        ReleaseWait::Sleep(Duration::from_micros(RELEASE_POLL_MICROS))
    }
}

/// Delivers one pointer of a motion event.
///
/// `action` is an `AMOTION_EVENT_ACTION_*` value already reduced to a single
/// pointer (`POINTER_DOWN`/`POINTER_UP` collapsed to `DOWN`/`UP` by the
/// caller). Coordinates are in physical pixels, relative to the surface.
#[must_use]
pub fn touch<W, S, L: Copy>(host: &mut Host<W, S, L>, id: i32, action: u32, x: S, y: S) -> (wake:
    Option<L>)
    ensures
        final(host)@ == old(host)@.posted(Command::Touch(TouchPoint { id, x, y, action })),
        wake == old(host)@.looper,
{
    post(host, Command::Touch(TouchPoint { id, x, y, action }))
}

/// Delivers a key event. `action` is `0` for down and `1` for up;
/// `unicode_char` is what the key map gives for the other three.
#[must_use]
pub fn key<W, S, L: Copy>(
    host: &mut Host<W, S, L>,
    key_code: i32,
    action: i32,
    meta_state: i32,
    unicode_char: u32,
) -> (wake: Option<L>)
    ensures
        final(host)@ == old(host)@.posted(
            Command::Key(AndroidKeyEvent { key_code, action, meta_state, unicode_char }),
        ),
        wake == old(host)@.looper,
{
    post(host, Command::Key(AndroidKeyEvent { key_code, action, meta_state, unicode_char }))
}

/// Forwards an IME update from a host-owned input connection. The event is
/// queued, not applied; returns whether it was, which is when the text input
/// has to be marked dirty.
///
/// `kind` matches the Java side: `0` composing, `1` commit, `2`
/// delete-surrounding, `3` delete-in-code-points, `4` done/dismiss.
#[must_use]
pub fn ime_event(
    ime: &mut ImeState,
    session: u64,
    kind: i32,
    text: String,
    start: usize,
    end: usize,
) -> (queued: bool)
    ensures
        queued == (session == old(ime)@.session),
        final(ime)@ == old(ime)@.enqueued(ImeEvent { session, kind, text, start, end }),
        old(ime)@.wf() ==> final(ime)@.wf(),
{
    enqueue(ime, ImeEvent { session, kind, text, start, end })
}

/// The Activity came to the foreground.
#[must_use]
pub fn resumed<W, S, L: Copy>(host: &mut Host<W, S, L>) -> (wake: Option<L>)
    ensures
        final(host)@ == old(host)@.posted(Command::Resumed),
        wake == old(host)@.looper,
{
    post(host, Command::Resumed)
}

/// The Activity went to the background.
#[must_use]
pub fn paused<W, S, L: Copy>(host: &mut Host<W, S, L>) -> (wake: Option<L>)
    ensures
        final(host)@ == old(host)@.posted(Command::Paused),
        wake == old(host)@.looper,
{
    post(host, Command::Paused)
}

/// What only the render thread knows.
pub struct RenderThread {
    /// The address of the native window the renderer is attached to.
    ///
    /// Android reports creation **and** change for the same surface, and
    /// Vulkan allows only one surface per native window. So a repeat of the
    /// window we already hold is treated as a resize, not as a re-attach.
    current_surface: Option<usize>,
    /// The UI has not been launched yet.
    launch_pending: bool,
}

/// What a [`RenderThread`] remembers.
pub ghost struct RenderView {
    pub current_surface: Option<usize>,
    pub launch_pending: bool,
}

impl View for RenderThread {
    type V = RenderView;

    closed spec fn view(&self) -> RenderView {
        RenderView { current_surface: self.current_surface, launch_pending: self.launch_pending }
    }
}

/// What the platform has to do for a command. Where an action names a window,
/// it is the platform's primary window. Once it is done, [`activates`] says
/// whether the window becomes active.
#[derive(Debug, PartialEq, Eq)]
pub enum RenderAction<W, S> {
    /// Nothing.
    Nothing,
    /// The window's surface changed size.
    Resize,
    /// Attach the surface to the renderer that is there and report how it went
    /// with [`RenderThread::on_reattached`].
    Reattach { window: NativeWindow<W> },
    /// Open the first window and report how it went with
    /// [`RenderThread::on_opened`].
    Open { window: NativeWindow<W>, scale: S },
    /// Detach the surface from the window if there is one (`detach`), keeping
    /// the renderer alive, then report with [`RenderThread::on_released`].
    Release { detach: bool },
    /// The platform became active, and so does the window if there is one.
    Activate { has_window: bool },
    /// The platform went to the background, and the window with it.
    Deactivate { has_window: bool },
    /// Hand the touch to the window.
    Touch(TouchPoint<S>),
    /// There is no window to hand the touch to.
    DropTouch,
    /// Hand the key to the window.
    Key(AndroidKeyEvent),
}

impl RenderView {
    /// What a surface asks for: a resize for the window that is attached, the
    /// renderer that is there for another one, and a window of its own for the
    /// first.
    pub open spec fn surface_action<W, S>(
        self,
        window: NativeWindow<W>,
        scale: S,
        has_window: bool,
    ) -> RenderAction<W, S> {
        if self.current_surface == Some(window.address) {
            if has_window {
                RenderAction::Resize
            } else {
                RenderAction::Nothing
            }
        } else if has_window {
            RenderAction::Reattach { window }
        } else {
            RenderAction::Open { window, scale }
        }
    }

    /// What a command asks for, with or without a primary window.
    pub open spec fn action<W, S>(self, command: Command<W, S>, has_window: bool) -> RenderAction<
        W,
        S,
    > {
        match command {
            Command::SurfaceCreated { window, scale } => self.surface_action(
                window,
                scale,
                has_window,
            ),
            Command::SurfaceDestroyed => RenderAction::Release { detach: has_window },
            Command::Resumed => RenderAction::Activate { has_window },
            Command::Paused => RenderAction::Deactivate { has_window },
            Command::Touch(point) => if has_window {
                RenderAction::Touch(point)
            } else {
                RenderAction::DropTouch
            },
            Command::Key(event) => if has_window {
                RenderAction::Key(event)
            } else {
                RenderAction::Nothing
            },
        }
    }

    /// The window at `address` was attached, or could not be.
    pub open spec fn attached(self, address: usize, ok: bool) -> RenderView {
        if ok {
            RenderView { current_surface: Some(address), ..self }
        } else {
            self
        }
    }

    /// A first window was opened on `address`, or could not be.
    pub open spec fn opened(self, address: usize, ok: bool) -> RenderView {
        if ok {
            RenderView { current_surface: Some(address), launch_pending: false }
        } else {
            self
        }
    }

    /// The surface was let go of.
    pub open spec fn released(self) -> RenderView {
        RenderView { current_surface: None, ..self }
    }
}

impl RenderThread {
    /// No surface yet, and the UI still to launch.
    pub fn new() -> (render: RenderThread)
        ensures
            render@ == (RenderView { current_surface: None, launch_pending: true }),
    {
        RenderThread { current_surface: None, launch_pending: true }
    }

    /// Decides what the platform does for a command. `has_window` is whether
    /// the platform has a primary window when the command's turn comes.
    pub fn on_command<W, S, L: Copy>(
        &self,
        host: &mut Host<W, S, L>,
        command: Command<W, S>,
        has_window: bool,
    ) -> (action: RenderAction<W, S>)
        ensures
            action == self@.action(command, has_window),
            final(host)@ == old(host)@.reached(command),
    {
        match command {
            Command::SurfaceCreated { window, scale } => self.on_surface_created(
                host,
                window,
                scale,
                has_window,
            ),
            Command::SurfaceDestroyed => RenderAction::Release { detach: has_window },
            Command::Resumed => RenderAction::Activate { has_window },
            Command::Paused => RenderAction::Deactivate { has_window },
            Command::Touch(point) => {
                if has_window {
                    RenderAction::Touch(point)
                } else {
                    RenderAction::DropTouch
                }
            },
            Command::Key(event) => {
                if has_window {
                    RenderAction::Key(event)
                } else {
                    RenderAction::Nothing
                }
            },
        }
    }

    /// Decides what a surface needs. From here on the surface counts as in
    /// use, whatever becomes of it.
    pub fn on_surface_created<W, S, L: Copy>(
        &self,
        host: &mut Host<W, S, L>,
        window: NativeWindow<W>,
        scale: S,
        has_window: bool,
    ) -> (action: RenderAction<W, S>)
        ensures
            action == self@.surface_action(window, scale, has_window),
            final(host)@ == old(host)@.reached(Command::SurfaceCreated { window, scale }),
    {
        host.surface_released = false;
        if host.unhandled > 0 {
            host.unhandled = host.unhandled - 1;
        }
        let attached = match self.current_surface {
            Some(address) => address == window.address,
            None => false,
        };
        if attached {
            if has_window {
                RenderAction::Resize
            } else {
                RenderAction::Nothing
            }
        } else if has_window {
            RenderAction::Reattach { window }
        } else {
            RenderAction::Open { window, scale }
        }
    }

    /// The renderer was attached to the window at `address`, or could not be.
    pub fn on_reattached(&mut self, address: usize, ok: bool)
        ensures
            final(self)@ == old(self)@.attached(address, ok),
    {
        if ok {
            self.current_surface = Some(address);
        }
    }

    /// The first window was opened on the one at `address`, or could not be.
    /// Returns whether the UI has to be launched now.
    #[must_use]
    pub fn on_opened(&mut self, address: usize, ok: bool) -> (launch: bool)
        ensures
            final(self)@ == old(self)@.opened(address, ok),
            launch == (ok && old(self)@.launch_pending),
    {
        if !ok {
            return false;
        }
        self.current_surface = Some(address);
        let launch = self.launch_pending;
        self.launch_pending = false;
        launch
    }

    /// The surface has been detached: nobody here uses it any more.
    pub fn on_released<W, S, L: Copy>(&mut self, host: &mut Host<W, S, L>)
        ensures
            final(self)@ == old(self)@.released(),
            final(host)@ == old(host)@.released(),
    {
        self.current_surface = None;
        host.surface_released = true;
    }
}

/// Whether the window becomes active after an action that succeeded (`ok`) or
/// failed.
pub open spec fn activated<W, S>(action: RenderAction<W, S>, ok: bool) -> bool {
    match action {
        RenderAction::Reattach { window } => true,
        RenderAction::Open { window, scale } => ok,
        RenderAction::Activate { has_window } => has_window,
        _ => false,
    }
}

/// Whether the window becomes active now and its frames are to be
/// [resumed](crate::android::frame_source::resume): after a surface swap,
/// whether or not the surface could be attached, after opening the first window
/// if that succeeded, and when the Activity resumes.
pub fn activates<W, S>(action: &RenderAction<W, S>, ok: bool) -> (activates: bool)
    ensures
        activates == activated(*action, ok),
{
    match action {
        RenderAction::Reattach { .. } => true,
        RenderAction::Open { .. } => ok,
        RenderAction::Activate { has_window } => *has_window,
        _ => false,
    }
}

/// Whether a round of the render loop ends with a frame, and the looper to
/// wake: a window that is there and active draws, when GPUI asked for a frame
/// and its vsync has passed. Without such a window the frame stays owed.
/// `window_active` is `None` without a window.
#[must_use]
pub fn frame_wanted<L: Copy>(
    source: &mut FrameSource<L>,
    slot: &mut Option<FramePacer>,
    now: Instant,
    window_active: Option<bool>,
) -> (result: (bool, Option<L>))
    requires
        window_active == Some(true) && old(source)@.off_thread_demand ==> seen_from(
            *old(source),
            *old(slot),
        ).can_schedule(now@),
    ensures
        window_active != Some(true) ==> result == (false, None::<L>) && *final(source) == *old(
            source,
        ) && *final(slot) == *old(slot),
        window_active == Some(true) ==> {
            let seen = seen_from(*old(source), *old(slot));
            &&& result.0 == seen.frame_ready(now@)
            &&& result.1 == seen.take_wake(now@)
            &&& seen_from(*final(source), *final(slot)) == seen.taken(now@)
        },
{
    let active = match window_active {
        Some(active) => active,
        None => false,
    };
    if active {
        take_frame(source, slot, now)
    } else {
        (false, None)
    }
}

/// One step of the UI thread or of the render thread.
pub ghost enum HostStep<W, S> {
    /// The UI thread queues a command.
    Post(Command<W, S>),
    /// The render thread takes the queue.
    Take,
    /// The render thread comes to the next command that it took; `has_window`
    /// is whether there is a primary window.
    Decide { has_window: bool },
    /// The platform has done what was decided, or failed to.
    Report { ok: bool },
}

/// The UI thread and the render thread, between any two steps.
pub ghost struct HostRun<W, S, L> {
    pub host: HostView<W, S, L>,
    /// Commands that the render thread took and has not come to yet.
    pub taken: Seq<Command<W, S>>,
    pub render: RenderView,
    /// What the platform is doing.
    pub acting: Option<RenderAction<W, S>>,
    /// How often the UI was launched.
    pub launches: nat,
}

impl<W, S, L> HostRun<W, S, L> {
    pub open spec fn start() -> Self {
        HostRun {
            host: HostView {
                started: false,
                looper: None,
                commands: Seq::empty(),
                unhandled: 0,
                surface_released: true,
            },
            taken: Seq::empty(),
            render: RenderView { current_surface: None, launch_pending: true },
            acting: None,
            launches: 0,
        }
    }

    pub open spec fn next(self, step: HostStep<W, S>) -> Self {
        match step {
            HostStep::Post(command) => HostRun { host: self.host.posted(command), ..self },
            HostStep::Take => HostRun {
                host: self.host.taken(),
                taken: self.taken + self.host.commands,
                ..self
            },
            HostStep::Decide { has_window } => if self.acting is None && self.taken.len() > 0 {
                HostRun {
                    host: self.host.reached(self.taken[0]),
                    taken: self.taken.drop_first(),
                    acting: Some(self.render.action(self.taken[0], has_window)),
                    ..self
                }
            } else {
                self
            },
            HostStep::Report { ok } => {
                let done = HostRun { acting: None::<RenderAction<W, S>>, ..self };
                match self.acting {
                    Some(RenderAction::Reattach { window }) => HostRun {
                        render: self.render.attached(window.address, ok),
                        ..done
                    },
                    Some(RenderAction::Open { window, scale }) => HostRun {
                        render: self.render.opened(window.address, ok),
                        launches: self.launches + if ok && self.render.launch_pending {
                            1nat
                        } else {
                            0nat
                        },
                        ..done
                    },
                    Some(RenderAction::Release { detach }) => HostRun {
                        host: self.host.released(),
                        render: self.render.released(),
                        ..done
                    },
                    _ => done,
                }
            },
        }
    }

    /// The threads after some steps, in whatever order they came.
    pub open spec fn run(self, steps: Seq<HostStep<W, S>>) -> Self
        decreases steps.len(),
    {
        if steps.len() == 0 {
            self
        } else {
            self.run(steps.drop_last()).next(steps.last())
        }
    }

    /// The commands that the render thread has not come to yet, oldest first.
    pub open spec fn waiting(self) -> Seq<Command<W, S>> {
        self.taken + self.host.commands
    }

    /// The platform is attaching a surface.
    pub open spec fn is_attaching(self) -> bool {
        self.acting matches Some(action) && (action is Reattach || action is Open)
    }

    /// The platform is detaching the surface.
    pub open spec fn is_releasing(self) -> bool {
        self.acting matches Some(action) && action is Release
    }

    /// A surface is in use, and what the platform is doing does not change
    /// that.
    pub open spec fn in_use(self) -> bool {
        !self.host.surface_released && !self.is_releasing()
    }
}

/// The command hands a surface in or takes it back.
pub open spec fn moves_surface<W, S>(command: Command<W, S>) -> bool {
    command is SurfaceCreated || command is SurfaceDestroyed
}

/// How many of the commands hand a surface in.
pub open spec fn surfaces<W, S>(commands: Seq<Command<W, S>>) -> nat
    decreases commands.len(),
{
    if commands.len() == 0 {
        0
    } else {
        surfaces(commands.drop_last()) + if commands.last() is SurfaceCreated {
            1nat
        } else {
            0nat
        }
    }
}

/// The UI thread has handed a surface in and has not taken it back.
pub open spec fn handed_in<W, S>(steps: Seq<HostStep<W, S>>) -> bool
    decreases steps.len(),
{
    if steps.len() == 0 {
        false
    } else {
        match steps.last() {
            HostStep::Post(Command::SurfaceCreated { window, scale }) => true,
            HostStep::Post(Command::SurfaceDestroyed) => false,
            _ => handed_in(steps.drop_last()),
        }
    }
}

/// Commands reach the render thread in the order they were posted, each once.
pub proof fn commands_arrive_in_order<W, S, L>(
    host: HostView<W, S, L>,
    commands: Seq<Command<W, S>>,
)
    ensures
        host.posted_all(commands).commands == host.commands + commands,
        host.posted_all(commands).looper == host.looper,
        host.posted_all(commands).unhandled == host.unhandled + surfaces(commands),
        host.posted_all(commands).surface_released == host.surface_released,
    decreases commands.len(),
{
    if commands.len() > 0 {
        commands_arrive_in_order(host, commands.drop_last());
        assert(commands == commands.drop_last().push(commands.last()));
    }
}

/// A native window never gets a second surface: until it is taken back or
/// another one takes its place, it is neither re-attached nor opened again.
pub proof fn an_attached_window_is_not_attached_again<W, S, L>(
    run: HostRun<W, S, L>,
    steps: Seq<HostStep<W, S>>,
    window: NativeWindow<W>,
    scale: S,
    has_window: bool,
)
    requires
        run.render.current_surface == Some(window.address),
        !run.is_attaching() && !run.is_releasing(),
        forall|i: int|
            0 <= i < run.waiting().len() ==> keeps_surface(
                #[trigger] run.waiting()[i],
                window.address,
            ),
        forall|i: int|
            0 <= i < steps.len() ==> (#[trigger] steps[i] matches HostStep::Post(command)
                ==> keeps_surface(command, window.address)),
    ensures
        run.run(steps).render.current_surface == Some(window.address),
        !run.run(steps).is_attaching(),
        run.run(steps).render.surface_action(window, scale, has_window) == if has_window {
            RenderAction::<W, S>::Resize
        } else {
            RenderAction::Nothing
        },
{
    surface_is_kept(run, steps, window.address);
}

/// The command neither takes the surface at `address` back nor puts another
/// one in its place.
pub open spec fn keeps_surface<W, S>(command: Command<W, S>, address: usize) -> bool {
    match command {
        Command::SurfaceCreated { window, scale } => window.address == address,
        Command::SurfaceDestroyed => false,
        _ => true,
    }
}

proof fn surface_is_kept<W, S, L>(
    run: HostRun<W, S, L>,
    steps: Seq<HostStep<W, S>>,
    address: usize,
)
    requires
        run.render.current_surface == Some(address),
        !run.is_attaching() && !run.is_releasing(),
        forall|i: int|
            0 <= i < run.waiting().len() ==> keeps_surface(#[trigger] run.waiting()[i], address),
        forall|i: int|
            0 <= i < steps.len() ==> (#[trigger] steps[i] matches HostStep::Post(command)
                ==> keeps_surface(command, address)),
    ensures
        ({
            let after = run.run(steps);
            &&& after.render.current_surface == Some(address)
            &&& !after.is_attaching() && !after.is_releasing()
            &&& forall|i: int|
                0 <= i < after.waiting().len() ==> keeps_surface(
                    #[trigger] after.waiting()[i],
                    address,
                )
        }),
    decreases steps.len(),
{
    if steps.len() > 0 {
        let before = run.run(steps.drop_last());
        let after = run.run(steps);
        assert(steps.last() == steps[steps.len() - 1]);
        surface_is_kept(run, steps.drop_last(), address);
        assert forall|i: int| 0 <= i < after.waiting().len() implies keeps_surface(
            #[trigger] after.waiting()[i],
            address,
        ) by {
            waiting_after(before, steps.last());
            if steps.last() is Decide && before.acting is None && before.taken.len() > 0 {
                assert(after.waiting()[i] == before.waiting()[i + 1]);
            } else if i < before.waiting().len() {
                assert(after.waiting()[i] == before.waiting()[i]);
            }
        }
        if steps.last() is Decide && before.acting is None && before.taken.len() > 0 {
            assert(before.waiting()[0] == before.taken[0]);
        }
    }
}

/// What was posted is what the window handles: with a window, every touch and
/// every key reaches it with each of its fields as it was posted. Without one a
/// touch is dropped and a key does nothing.
pub proof fn input_reaches_the_window_unchanged<W, S>(
    render: RenderView,
    point: TouchPoint<S>,
    event: AndroidKeyEvent,
)
    ensures
        render.action(Command::<W, S>::Touch(point), true) matches RenderAction::Touch(handled)
            && handled.id == point.id && handled.x == point.x && handled.y == point.y
            && handled.action == point.action,
        render.action(Command::<W, S>::Touch(point), false) is DropTouch,
        render.action(Command::<W, S>::Key(event), true) matches RenderAction::Key(handled)
            && handled.key_code == event.key_code && handled.action == event.action
            && handled.meta_state == event.meta_state && handled.unicode_char == event.unicode_char,
        render.action(Command::<W, S>::Key(event), false) is Nothing,
{
}

/// The lifecycle reaches the platform whatever it is attached to: a resume
/// activates it, a pause deactivates it and a surface that goes is released,
/// and each concerns the window exactly if there is one.
pub proof fn the_lifecycle_reaches_the_platform<W, S>(render: RenderView, has_window: bool)
    ensures
        render.action(Command::<W, S>::Resumed, has_window) matches RenderAction::Activate {
            has_window: concerned,
        } && concerned == has_window,
        render.action(Command::<W, S>::Paused, has_window) matches RenderAction::Deactivate {
            has_window: concerned,
        } && concerned == has_window,
        render.action(Command::<W, S>::SurfaceDestroyed, has_window) matches RenderAction::Release {
            detach,
        } && detach == has_window,
{
}

/// A surface that is new to the renderer is attached as it was handed in: to
/// the renderer that is there, or by opening the first window on it at its own
/// scale.
pub proof fn a_new_surface_is_attached_as_it_is<W, S>(
    render: RenderView,
    window: NativeWindow<W>,
    scale: S,
    has_window: bool,
)
    requires
        render.current_surface != Some(window.address),
    ensures
        ({
            let action = render.action(Command::SurfaceCreated { window, scale }, has_window);
            &&& has_window ==> (action matches RenderAction::Reattach { window: attached }
                && attached.handle == window.handle && attached.address == window.address)
            &&& !has_window ==> (action matches RenderAction::Open {
                window: opened,
                scale: opened_at,
            } && opened.handle == window.handle && opened.address == window.address && opened_at
                == scale)
        }),
{
}

/// What the platform reports of a surface.
pub ghost enum SurfaceReport {
    Reattached { address: usize, ok: bool },
    Opened { address: usize, ok: bool },
    Released,
}

impl RenderView {
    /// The render thread after some reports.
    pub open spec fn after_reports(self, reports: Seq<SurfaceReport>) -> RenderView
        decreases reports.len(),
    {
        if reports.len() == 0 {
            self
        } else {
            let before = self.after_reports(reports.drop_last());
            match reports.last() {
                SurfaceReport::Reattached { address, ok } => before.attached(address, ok),
                SurfaceReport::Opened { address, ok } => before.opened(address, ok),
                SurfaceReport::Released => before.released(),
            }
        }
    }
}

/// The report says that something became of the surface: a failure does not.
pub open spec fn tells(report: SurfaceReport) -> bool {
    match report {
        SurfaceReport::Reattached { address, ok } => ok,
        SurfaceReport::Opened { address, ok } => ok,
        SurfaceReport::Released => true,
    }
}

/// The current surface is the one of the last success: the window that was last
/// attached or opened, and none once it was released. Failures change nothing.
/// `last` is that success, and negative if there was none.
pub proof fn the_current_surface_is_the_last_attached(
    render: RenderView,
    reports: Seq<SurfaceReport>,
    last: int,
)
    requires
        -1 <= last < reports.len(),
        last >= 0 ==> tells(reports[last]),
        forall|j: int| last < j < reports.len() ==> !tells(#[trigger] reports[j]),
    ensures
        ({
            let current = render.after_reports(reports).current_surface;
            &&& last < 0 ==> current == render.current_surface
            &&& last >= 0 ==> match reports[last] {
                SurfaceReport::Reattached { address, ok } => current == Some(address),
                SurfaceReport::Opened { address, ok } => current == Some(address),
                SurfaceReport::Released => current is None,
            }
        }),
    decreases reports.len(),
{
    if last < reports.len() - 1 {
        assert(!tells(reports[reports.len() - 1]));
        the_current_surface_is_the_last_attached(render, reports.drop_last(), last);
    }
}

/// The UI waits for its launch until a window was opened, and for nothing else:
/// `opened` is a report of that, if it is one of them.
pub proof fn the_ui_waits_for_the_first_window(
    render: RenderView,
    reports: Seq<SurfaceReport>,
    opened: int,
)
    ensures
        0 <= opened < reports.len() && tells(reports[opened]) && reports[opened] is Opened
            ==> !render.after_reports(reports).launch_pending,
        (forall|i: int|
            0 <= i < reports.len() ==> !(tells(#[trigger] reports[i]) && reports[i] is Opened))
            ==> render.after_reports(reports).launch_pending == render.launch_pending,
    decreases reports.len(),
{
    if reports.len() > 0 {
        let before = reports.drop_last();
        the_ui_waits_for_the_first_window(render, before, opened);
        if forall|i: int|
            0 <= i < reports.len() ==> !(tells(#[trigger] reports[i]) && reports[i] is Opened) {
            assert(!(tells(reports[reports.len() - 1]) && reports[reports.len() - 1] is Opened));
            assert forall|i: int| 0 <= i < before.len() implies !(tells(#[trigger] before[i])
                && before[i] is Opened) by {
                assert(!(tells(reports[i]) && reports[i] is Opened));
            }
        }
    }
}

/// The commands that the UI thread posted, oldest first.
pub open spec fn posted_commands<W, S>(steps: Seq<HostStep<W, S>>) -> Seq<Command<W, S>>
    decreases steps.len(),
{
    if steps.len() == 0 {
        Seq::empty()
    } else {
        match steps.last() {
            HostStep::Post(command) => posted_commands(steps.drop_last()).push(command),
            _ => posted_commands(steps.drop_last()),
        }
    }
}

impl<W, S, L> HostRun<W, S, L> {
    /// The commands that the render thread came to, oldest first.
    pub open spec fn reached_commands(self, steps: Seq<HostStep<W, S>>) -> Seq<Command<W, S>>
        decreases steps.len(),
    {
        if steps.len() == 0 {
            Seq::empty()
        } else {
            let before = self.run(steps.drop_last());
            let reached = self.reached_commands(steps.drop_last());
            if steps.last() is Decide && before.acting is None && before.taken.len() > 0 {
                reached.push(before.taken[0])
            } else {
                reached
            }
        }
    }
}

/// No command is lost, repeated, changed or overtaken: whatever the order of
/// the two threads' steps, the commands that the render thread came to,
/// followed by those that wait for it, are the commands that were posted. The
/// looper that wakes it stays what it was, and so does the fact that it was
/// started.
pub proof fn every_command_is_handled_once_and_in_order<W, S, L>(steps: Seq<HostStep<W, S>>)
    ensures
        ({
            let start = HostRun::<W, S, L>::start();
            let run = start.run(steps);
            &&& start.reached_commands(steps) + run.waiting() == posted_commands(steps)
            &&& run.host.looper == start.host.looper
            &&& run.host.started == start.host.started
        }),
    decreases steps.len(),
{
    let start = HostRun::<W, S, L>::start();
    if steps.len() > 0 {
        let before = start.run(steps.drop_last());
        every_command_is_handled_once_and_in_order::<W, S, L>(steps.drop_last());
        waiting_after(before, steps.last());
        let reached = start.reached_commands(steps.drop_last());
        match steps.last() {
            HostStep::Post(command) => {
                assert(reached + before.waiting().push(command) == (reached
                    + before.waiting()).push(command));
            },
            HostStep::Decide { has_window } => {
                if before.acting is None && before.taken.len() > 0 {
                    assert(reached.push(before.taken[0]) + before.waiting().drop_first() == reached
                        + before.waiting());
                }
            },
            _ => {},
        }
    } else {
        assert(start.waiting() == Seq::<Command<W, S>>::empty());
    }
}

/// The render thread is spawned once: after it was asked for it stays asked
/// for, and it is woken by the looper it reported. Neither touches the queue or
/// the surface.
pub proof fn the_render_thread_is_spawned_once<W, S, L>(host: HostView<W, S, L>, looper: L)
    ensures
        host.asked_for().started,
        host.asked_for().asked_for() == host.asked_for(),
        host.asked_for().looper == host.looper,
        host.running(looper).looper == Some(looper),
        host.running(looper).started == host.started,
        host.asked_for().commands == host.commands && host.running(looper).commands
            == host.commands,
        host.asked_for().let_go() == host.let_go() && host.running(looper).let_go()
            == host.let_go(),
        host.asked_for().unhandled == host.unhandled && host.running(looper).unhandled
            == host.unhandled,
{
}

/// The threads know each other through everything that happens between them:
/// no call but the ones that say so changes the looper that wakes the render
/// thread or whether it was started, and none but taking the queue empties it.
pub proof fn the_render_thread_stays_known<W, S, L>(
    host: HostView<W, S, L>,
    command: Command<W, S>,
)
    ensures
        host.posted(command).looper == host.looper && host.posted(command).started == host.started,
        host.posted(command).surface_released == host.surface_released,
        host.taken().looper == host.looper && host.taken().started == host.started,
        host.taken().commands.len() == 0,
        host.taken().let_go() == host.let_go(),
        host.reached(command).looper == host.looper && host.reached(command).started
            == host.started,
        host.reached(command).commands == host.commands,
        host.released().looper == host.looper && host.released().started == host.started,
        host.released().commands == host.commands,
        host.released().unhandled == host.unhandled,
{
}

/// A surface swap and a resume leave the window active, with its frames
/// resumed: a surface for a renderer that is there, attached or not, the first
/// window once it is open, and the Activity's return to a window. Nothing else
/// activates a window.
pub proof fn a_surface_swap_or_a_resume_activates_the_window<W, S>(
    render: RenderView,
    command: Command<W, S>,
    has_window: bool,
    ok: bool,
)
    ensures
        activated(render.action(command, has_window), ok) <==> match command {
            Command::SurfaceCreated { window, scale } => render.current_surface != Some(
                window.address,
            ) && (has_window || ok),
            Command::Resumed => has_window,
            _ => false,
        },
{
}

/// The UI is launched at most once, by the first window that opens.
pub proof fn the_ui_launches_once<W, S, L>(steps: Seq<HostStep<W, S>>)
    ensures
        ({
            let run = HostRun::<W, S, L>::start().run(steps);
            &&& run.launches <= 1
            &&& run.launches == 1 <==> !run.render.launch_pending
            &&& (run.acting matches Some(action) && action is Open) ==> run.next(
                HostStep::Report { ok: true },
            ).launches == 1
        }),
    decreases steps.len(),
{
    if steps.len() > 0 {
        the_ui_launches_once::<W, S, L>(steps.drop_last());
    }
}

/// How the waiting commands change: one is added at the end, the first leaves,
/// or they stay as they are.
proof fn waiting_after<W, S, L>(run: HostRun<W, S, L>, step: HostStep<W, S>)
    ensures
        run.next(step).waiting() == match step {
            HostStep::Post(command) => run.waiting().push(command),
            HostStep::Decide { has_window } => if run.acting is None && run.taken.len() > 0 {
                run.waiting().drop_first()
            } else {
                run.waiting()
            },
            _ => run.waiting(),
        },
        run.acting is None && run.taken.len() > 0 ==> run.waiting().len() > 0 && run.waiting()[0]
            == run.taken[0],
{
    assert(run.next(step).waiting() =~= match step {
        HostStep::Post(command) => run.waiting().push(command),
        HostStep::Decide { has_window } => if run.acting is None && run.taken.len() > 0 {
            run.waiting().drop_first()
        } else {
            run.waiting()
        },
        _ => run.waiting(),
    });
}

proof fn surfaces_without_the_first<W, S>(commands: Seq<Command<W, S>>)
    requires
        commands.len() > 0,
    ensures
        surfaces(commands) == surfaces(commands.drop_first()) + if commands[0] is SurfaceCreated {
            1nat
        } else {
            0nat
        },
    decreases commands.len(),
{
    if commands.len() > 1 {
        surfaces_without_the_first(commands.drop_last());
        assert(commands.drop_first().drop_last() == commands.drop_last().drop_first());
        assert(commands.drop_first().last() == commands.last());
        assert(commands.drop_last()[0] == commands[0]);
    } else {
        assert(surfaces(commands.drop_first()) == 0);
        assert(surfaces(commands.drop_last()) == 0);
    }
}

proof fn no_surfaces<W, S>(commands: Seq<Command<W, S>>)
    ensures
        surfaces(commands) == 0 <==> forall|i: int|
            0 <= i < commands.len() ==> !(#[trigger] commands[i] is SurfaceCreated),
    decreases commands.len(),
{
    if commands.len() > 0 {
        let before = commands.drop_last();
        no_surfaces(before);
        assert(commands.last() == commands[commands.len() - 1]);
        assert forall|i: int| 0 <= i < before.len() implies before[i] == commands[i] by {}
        if forall|i: int| 0 <= i < commands.len() ==> !(#[trigger] commands[i] is SurfaceCreated) {
            assert forall|i: int| 0 <= i < before.len() implies !(
            #[trigger] before[i] is SurfaceCreated) by {
                assert(!(commands[i] is SurfaceCreated));
            }
        }
    }
}

/// Whether a surface is in use once all of `commands` were handled, given
/// whether one is now.
spec fn in_use_after<W, S>(now: bool, commands: Seq<Command<W, S>>) -> bool
    decreases commands.len(),
{
    if commands.len() == 0 {
        now
    } else {
        match commands.last() {
            Command::SurfaceCreated { window, scale } => true,
            Command::SurfaceDestroyed => false,
            _ => in_use_after(now, commands.drop_last()),
        }
    }
}

/// Whether the last surface to be in use is taken back at the end of
/// `commands`.
spec fn taken_back<W, S>(now: bool, commands: Seq<Command<W, S>>) -> bool
    decreases commands.len(),
{
    commands.len() > 0 && match commands.last() {
        Command::SurfaceCreated { window, scale } => false,
        Command::SurfaceDestroyed => in_use_after(now, commands.drop_last()),
        _ => taken_back(now, commands.drop_last()),
    }
}

spec fn moves_no_surface<W, S>(commands: Seq<Command<W, S>>) -> bool {
    forall|i: int| 0 <= i < commands.len() ==> !moves_surface(#[trigger] commands[i])
}

/// Whether a surface is in use once `command` was handled.
spec fn in_use_then<W, S>(now: bool, command: Command<W, S>) -> bool {
    command is SurfaceCreated || (now && !(command is SurfaceDestroyed))
}

proof fn in_use_after_the_first<W, S>(now: bool, commands: Seq<Command<W, S>>)
    requires
        commands.len() > 0,
    ensures
        ({
            let then = in_use_then(now, commands[0]);
            let rest = commands.drop_first();
            &&& in_use_after(now, commands) == in_use_after(then, rest)
            &&& taken_back(now, commands) <==> taken_back(then, rest) || (now
                && commands[0] is SurfaceDestroyed && moves_no_surface(rest))
        }),
    decreases commands.len(),
{
    let then = in_use_then(now, commands[0]);
    let rest = commands.drop_first();
    if commands.len() > 1 {
        let before = commands.drop_last();
        in_use_after_the_first(now, before);
        assert(rest.drop_last() == before.drop_first());
        assert(rest.last() == commands.last());
        assert(before[0] == commands[0]);
        let inner = rest.drop_last();
        assert forall|i: int| 0 <= i < inner.len() implies inner[i] == rest[i] by {}
        assert(rest.last() == rest[rest.len() - 1]);
        if moves_no_surface(rest) {
            assert forall|i: int| 0 <= i < inner.len() implies !moves_surface(
                #[trigger] inner[i],
            ) by {
                assert(!moves_surface(rest[i]));
            }
            assert(!moves_surface(rest[rest.len() - 1]));
        }
        if moves_no_surface(inner) && !moves_surface(rest.last()) {
            assert forall|i: int| 0 <= i < rest.len() implies !moves_surface(
                #[trigger] rest[i],
            ) by {
                if i < inner.len() {
                    assert(!moves_surface(inner[i]));
                }
            }
        }
    } else {
        assert(in_use_after(now, commands.drop_last()) == now);
        assert(!taken_back(now, commands.drop_last()));
        assert(in_use_after(then, rest) == then);
        assert(!taken_back(then, rest));
        assert(moves_no_surface(rest));
    }
}

proof fn nothing_handed_in_is_nothing_in_use<W, S>(commands: Seq<Command<W, S>>)
    requires
        surfaces(commands) == 0,
    ensures
        !in_use_after(false, commands),
        !taken_back(false, commands),
    decreases commands.len(),
{
    if commands.len() > 0 {
        nothing_handed_in_is_nothing_in_use(commands.drop_last());
    }
}

/// What holds of the two threads between any two steps.
spec fn consistent<W, S, L>(run: HostRun<W, S, L>) -> bool {
    &&& run.host.unhandled == surfaces(run.waiting())
    &&& run.is_attaching() ==> !run.host.surface_released
    &&& run.host.surface_released ==> run.render.current_surface is None
}

proof fn steps_stay_consistent<W, S, L>(steps: Seq<HostStep<W, S>>)
    ensures
        ({
            let run = HostRun::<W, S, L>::start().run(steps);
            &&& consistent(run)
            &&& in_use_after(run.in_use(), run.waiting()) == handed_in(steps)
        }),
    decreases steps.len(),
{
    let start = HostRun::<W, S, L>::start();
    if steps.len() > 0 {
        steps_stay_consistent::<W, S, L>(steps.drop_last());
        let before = start.run(steps.drop_last());
        let step = steps.last();
        waiting_after(before, step);
        match step {
            HostStep::Post(command) => {
                assert(before.waiting().push(command).drop_last() == before.waiting());
            },
            HostStep::Decide { has_window } => {
                if before.acting is None && before.taken.len() > 0 {
                    surfaces_without_the_first(before.waiting());
                    in_use_after_the_first(before.in_use(), before.waiting());
                }
            },
            _ => {},
        }
    } else {
        assert(start.waiting() == Seq::<Command<W, S>>::empty());
    }
}

/// While a surface is handed in, from the moment the UI thread posts it, nobody
/// is told that it was let go of.
pub proof fn a_surface_that_was_handed_in_is_not_let_go<W, S, L>(steps: Seq<HostStep<W, S>>)
    requires
        handed_in(steps),
    ensures
        !HostRun::<W, S, L>::start().run(steps).host.let_go(),
{
    let run = HostRun::<W, S, L>::start().run(steps);
    steps_stay_consistent::<W, S, L>(steps);
    if run.host.let_go() {
        nothing_handed_in_is_nothing_in_use(run.waiting());
    }
}

/// Whatever the order of the two threads' steps, when a wait for a surface ends
/// with its release, the renderer is attached to none and attaches none, and
/// none is queued or taken and still to be handled.
pub proof fn a_surface_that_was_let_go_is_out_of_use<W, S, L>(steps: Seq<HostStep<W, S>>)
    ensures
        ({
            let run = HostRun::<W, S, L>::start().run(steps);
            run.host.let_go() ==> {
                &&& run.render.current_surface is None
                &&& !run.is_attaching()
                &&& forall|i: int|
                    0 <= i < run.taken.len() ==> !(#[trigger] run.taken[i] is SurfaceCreated)
                &&& forall|i: int|
                    0 <= i < run.host.commands.len() ==> !(
                    #[trigger] run.host.commands[i] is SurfaceCreated)
            }
        }),
{
    let run = HostRun::<W, S, L>::start().run(steps);
    steps_stay_consistent::<W, S, L>(steps);
    if run.host.let_go() {
        no_surfaces(run.waiting());
        assert forall|i: int| 0 <= i < run.taken.len() implies !(
        #[trigger] run.taken[i] is SurfaceCreated) by {
            assert(run.waiting()[i] == run.taken[i]);
        }
        assert forall|i: int| 0 <= i < run.host.commands.len() implies !(
        #[trigger] run.host.commands[i] is SurfaceCreated) by {
            assert(run.waiting()[i + run.taken.len()] == run.host.commands[i]);
        }
    }
}

/// Taking a surface back waits for the render thread: after a surface was
/// handed in and taken back, and while the UI thread moves no other one, the
/// wait ends with the release exactly when the render thread has come to the
/// command that takes it back and has detached it. Until then the UI thread
/// sleeps and looks again, and it gives up only once the timeout has run out
/// since `taken_back_at`.
pub proof fn taking_a_surface_back_waits_for_the_render_thread<W, S, L>(
    before: Seq<HostStep<W, S>>,
    after: Seq<HostStep<W, S>>,
    taken_back_at: int,
    now: int,
)
    requires
        handed_in(before),
        forall|i: int|
            0 <= i < after.len() ==> (#[trigger] after[i] matches HostStep::Post(command)
                ==> !moves_surface(command)),
    ensures
        ({
            let run = HostRun::<W, S, L>::start().run(before).next(
                HostStep::Post(Command::SurfaceDestroyed),
            ).run(after);
            let deadline = taken_back_at + RELEASE_TIMEOUT_SECS * 1_000_000_000;
            let wait = run.host.release_wait(deadline, now);
            let waits = exists|i: int|
                0 <= i < run.waiting().len() && #[trigger] run.waiting()[i] is SurfaceDestroyed;
            &&& wait is Released <==> !waits && !run.is_releasing()
            &&& wait is Released ==> run.render.current_surface is None && !run.is_attaching()
            &&& !(wait is Released) ==> (wait is TimedOut <==> now >= deadline)
            &&& wait matches ReleaseWait::Sleep(span) ==> span@ == 200_000
        }),
{
    let run = HostRun::<W, S, L>::start().run(before).next(
        HostStep::Post(Command::SurfaceDestroyed),
    ).run(after);
    being_taken_back::<W, S, L>(before, after);
    let waiting = run.waiting();
    no_surfaces(waiting);
    if taken_back(run.in_use(), waiting) {
        has_the_one_that_takes_back(run.in_use(), waiting);
        if run.host.let_go() {
            nothing_handed_in_is_nothing_in_use(waiting);
        }
    } else {
        assert forall|i: int| 0 <= i < waiting.len() implies !(
        #[trigger] waiting[i] is SurfaceDestroyed) && !(waiting[i] is SurfaceCreated) by {
            assert(!moves_surface(waiting[i]));
        }
    }
}

proof fn has_the_one_that_takes_back<W, S>(now: bool, commands: Seq<Command<W, S>>)
    requires
        taken_back(now, commands),
    ensures
        exists|i: int| 0 <= i < commands.len() && #[trigger] commands[i] is SurfaceDestroyed,
    decreases commands.len(),
{
    if commands.last() is SurfaceDestroyed {
        assert(commands[commands.len() - 1] is SurfaceDestroyed);
    } else {
        let before = commands.drop_last();
        has_the_one_that_takes_back(now, before);
        let i = choose|i: int| 0 <= i < before.len() && #[trigger] before[i] is SurfaceDestroyed;
        assert(commands[i] is SurfaceDestroyed);
    }
}

/// A surface that is taken back is still to be detached, or is being detached,
/// or nobody uses it any more.
proof fn being_taken_back<W, S, L>(before: Seq<HostStep<W, S>>, after: Seq<HostStep<W, S>>)
    requires
        handed_in(before),
        forall|i: int|
            0 <= i < after.len() ==> (#[trigger] after[i] matches HostStep::Post(command)
                ==> !moves_surface(command)),
    ensures
        ({
            let run = HostRun::<W, S, L>::start().run(before).next(
                HostStep::Post(Command::SurfaceDestroyed),
            ).run(after);
            &&& consistent(run)
            &&& {
                ||| taken_back(run.in_use(), run.waiting())
                ||| moves_no_surface(run.waiting()) && run.is_releasing()
                    && !run.host.surface_released
                ||| moves_no_surface(run.waiting()) && !run.is_releasing()
                    && run.host.surface_released
            }
        }),
    decreases after.len(),
{
    let start = HostRun::<W, S, L>::start();
    let destroy = HostStep::Post(Command::<W, S>::SurfaceDestroyed);
    let posted = start.run(before).next(destroy);
    if after.len() == 0 {
        steps_stay_consistent::<W, S, L>(before);
        waiting_after(start.run(before), destroy);
        assert(posted.waiting().drop_last() == start.run(before).waiting());
        assert(posted.run(after) == posted);
    } else {
        assert(after.last() == after[after.len() - 1]);
        being_taken_back::<W, S, L>(before, after.drop_last());
        let run = posted.run(after.drop_last());
        let step = after.last();
        waiting_after(run, step);
        match step {
            HostStep::Post(command) => {
                assert(run.waiting().push(command).drop_last() == run.waiting());
                if moves_no_surface(run.waiting()) {
                    assert(moves_no_surface(run.next(step).waiting()));
                }
            },
            HostStep::Decide { has_window } => {
                if run.acting is None && run.taken.len() > 0 {
                    surfaces_without_the_first(run.waiting());
                    in_use_after_the_first(run.in_use(), run.waiting());
                    if moves_no_surface(run.waiting()) {
                        assert(!moves_surface(run.waiting()[0]));
                        assert forall|i: int|
                            0 <= i < run.waiting().drop_first().len() implies !moves_surface(
                            #[trigger] run.waiting().drop_first()[i],
                        ) by {
                            assert(!moves_surface(run.waiting()[i + 1]));
                        }
                    }
                }
            },
            _ => {},
        }
    }
}

} // verus!
