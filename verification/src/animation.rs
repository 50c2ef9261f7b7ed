//! The overlay window's animation as a state machine. The window loop hands
//! it input events, window events and the moments at which it is about to
//! wait for more, and performs the reactions it returns. Time is a count of
//! nanoseconds on a monotonic clock.

use vstd::prelude::*;
use crate::event::AppEvent;

verus! {

/// How long the "hit" frame stays up after a key event before the sprite
/// reverts to idle: 150 ms.
pub const ANIMATION_HOLD_NANOS: u64 = 150_000_000;

/// When the window loop should wake up next.
#[derive(Debug, Clone, Copy, PartialEq, Eq, Structural)]
pub enum ControlFlow {
    /// Sleep until the next event arrives.
    Wait,
    /// Wake up at this moment at the latest.
    WaitUntil(u64),
}

/// What the window loop must do after handing the state machine an event.
#[derive(Debug, Clone, Copy, PartialEq, Eq, Structural)]
pub struct Reaction {
    /// Ask the window to be redrawn (when there is a window).
    pub request_redraw: bool,
    /// The new control flow of the loop, or `None` to leave it as it is.
    pub control_flow: Option<ControlFlow>,
}

/// The window events that the overlay tells apart.
#[derive(Debug, Clone, Copy, PartialEq, Eq, Structural)]
pub enum WindowEvent {
    /// The user asked to close the window.
    CloseRequested,
    /// The window must be drawn now.
    RedrawRequested,
    /// Anything else.
    Other,
}

/// What the window loop does with a window event.
#[derive(Debug, Clone, Copy, PartialEq, Eq, Structural)]
pub enum WindowAction {
    /// Leave the event loop.
    Exit,
    /// Draw a frame and present it.
    Redraw,
    /// Nothing.
    Ignore,
}

/// Animation state of the overlay: whether the "hit" frame is up, and the
/// moment at which it reverts to idle.
pub struct App {
    active: bool,
    revert_at: Option<u64>,
}

/// The state after a key event at `now`: the hit frame is up until `now`
/// plus the hold time, whatever came before.
pub open spec fn after_input(now: u64) -> (bool, Option<u64>) {
    (true, Some((now + ANIMATION_HOLD_NANOS) as u64))
}

/// The reaction to a key event at `now`: redraw, and wake up when the hold
/// time is over.
pub open spec fn input_reaction(now: u64) -> Reaction {
    Reaction {
        request_redraw: true,
        control_flow: Some(ControlFlow::WaitUntil((now + ANIMATION_HOLD_NANOS) as u64)),
    }
}

/// The state after the loop is about to wait at `now`: once the deadline
/// has passed the sprite is idle again; otherwise nothing changes.
pub open spec fn after_idle(state: (bool, Option<u64>), now: u64) -> (bool, Option<u64>) {
    match state.1 {
        Some(deadline) => if now >= deadline {
            (false, None)
        } else {
            state
        },
        None => state,
    }
}

/// The reaction when the loop is about to wait at `now`: once the deadline
/// has passed, redraw and sleep until the next event; before it, wake up at
/// the deadline; with no deadline pending, leave the loop as it is.
pub open spec fn idle_reaction(state: (bool, Option<u64>), now: u64) -> Reaction {
    match state.1 {
        Some(deadline) => if now >= deadline {
            Reaction { request_redraw: true, control_flow: Some(ControlFlow::Wait) }
        } else {
            Reaction { request_redraw: false, control_flow: Some(ControlFlow::WaitUntil(deadline)) }
        },
        None => Reaction { request_redraw: false, control_flow: None },
    }
}

impl View for App {
    type V = (bool, Option<u64>);

    /// Whether the hit frame is up, and when it reverts.
    closed spec fn view(&self) -> (bool, Option<u64>) {
        (self.active, self.revert_at)
    }
}

impl App {
    /// The state is consistent: the hit frame is up exactly while a revert
    /// is pending.
    pub closed spec fn wf(&self) -> bool {
        self.active == self.revert_at.is_some()
    }

    /// The initial state: idle, nothing pending.
    pub fn new() -> (app: App)
        ensures
            app.wf(),
            app@ == (false, None::<u64>),
    {
        App { active: false, revert_at: None }
    }

    /// Whether the hit frame is up.
    pub fn active(&self) -> (b: bool)
        ensures
            b == self@.0,
    {
        self.active
    }

    /// When the hit frame reverts to idle, if it is up.
    pub fn revert_at(&self) -> (d: Option<u64>)
        ensures
            d == self@.1,
    {
        self.revert_at
    }

    /// A key was pressed or released at `now`: the hit frame goes up (or
    /// stays up) for the hold time from now.
    pub fn user_event(&mut self, event: AppEvent, now: u64) -> (r: Reaction)
        requires
            old(self).wf(),
            now + ANIMATION_HOLD_NANOS <= u64::MAX,
        ensures
            final(self).wf(),
            final(self)@ == after_input(now),
            r == input_reaction(now),
            r.request_redraw,
            r.control_flow == Some(ControlFlow::WaitUntil((now + 150_000_000) as u64)),
    {
        match event {
            AppEvent::KeyPressed | AppEvent::KeyReleased => {
                let deadline = now + ANIMATION_HOLD_NANOS;
                self.active = true;
                self.revert_at = Some(deadline);
                Reaction { request_redraw: true, control_flow: Some(ControlFlow::WaitUntil(deadline)) }
            },
        }
    }

    /// The loop is about to wait at `now`: revert to idle once the
    /// deadline has passed, otherwise keep waiting for it.
    pub fn about_to_wait(&mut self, now: u64) -> (r: Reaction)
        requires
            old(self).wf(),
        ensures
            final(self).wf(),
            final(self)@ == after_idle(old(self)@, now),
            r == idle_reaction(old(self)@, now),
    {
        match self.revert_at {
            Some(deadline) => {
                if now >= deadline {
                    self.active = false;
                    self.revert_at = None;
                    Reaction { request_redraw: true, control_flow: Some(ControlFlow::Wait) }
                } else {
                    Reaction { request_redraw: false, control_flow: Some(ControlFlow::WaitUntil(deadline)) }
                }
            },
            None => Reaction { request_redraw: false, control_flow: None },
        }
    }

    /// What to do with a window event: close means leave the loop, a
    /// redraw request means draw, anything else is ignored.
    pub fn window_event(&self, event: WindowEvent) -> (a: WindowAction)
        ensures
            a == match event {
                WindowEvent::CloseRequested => WindowAction::Exit,
                WindowEvent::RedrawRequested => WindowAction::Redraw,
                WindowEvent::Other => WindowAction::Ignore,
            },
    {
        match event {
            WindowEvent::CloseRequested => WindowAction::Exit,
            WindowEvent::RedrawRequested => WindowAction::Redraw,
            WindowEvent::Other => WindowAction::Ignore,
        }
    }

    /// Law: the hit frame is up exactly while a revert to idle is pending.
    pub proof fn lemma_active_iff_pending(&self)
        requires
            self.wf(),
        ensures
            self@.0 == self@.1.is_some(),
    {
    }
}

/// Law: a key event at `t` keeps the hit frame up until exactly `t` plus the
/// hold time. While the loop waits before that moment the frame stays up and
/// the loop is told to wake at the deadline; from that moment on the sprite
/// reverts to idle, is redrawn, and the loop sleeps until the next event.
pub proof fn lemma_hold_then_revert(t: u64, now: u64)
    requires
        t + ANIMATION_HOLD_NANOS <= u64::MAX,
    ensures
        now < t + ANIMATION_HOLD_NANOS ==> after_idle(after_input(t), now) == after_input(t)
            && idle_reaction(after_input(t), now) == (Reaction {
            request_redraw: false,
            control_flow: Some(ControlFlow::WaitUntil((t + ANIMATION_HOLD_NANOS) as u64)),
        }),
        now >= t + ANIMATION_HOLD_NANOS ==> after_idle(after_input(t), now) == (false, None::<u64>)
            && idle_reaction(after_input(t), now) == (Reaction {
            request_redraw: true,
            control_flow: Some(ControlFlow::Wait),
        }),
{
}

/// Law: every key press or release, at any moment `now`, asks for a redraw
/// and for a wake-up 150 ms later, and leaves the hit frame up until then.
pub proof fn lemma_input_always_redraws(now: u64)
    requires
        now + 150_000_000 <= u64::MAX,
    ensures
        input_reaction(now).request_redraw,
        input_reaction(now).control_flow == Some(ControlFlow::WaitUntil((now + 150_000_000) as u64)),
        after_input(now) == (true, Some((now + 150_000_000) as u64)),
{
}

/// Law: waiting changes nothing a second time. Once the loop has been
/// about to wait at `now`, being about to wait again at the same moment
/// leaves the state as it is.
pub proof fn lemma_idle_settles(state: (bool, Option<u64>), now: u64)
    ensures
        after_idle(after_idle(state, now), now) == after_idle(state, now),
{
}

/// Law: an idle sprite stays idle until the next key event, and its loop is
/// left alone, however long it waits.
pub proof fn lemma_idle_stays_idle(now: u64)
    ensures
        after_idle((false, None::<u64>), now) == (false, None::<u64>),
        idle_reaction((false, None::<u64>), now) == (Reaction {
            request_redraw: false,
            control_flow: None,
        }),
{
}

/// Law: every transition keeps the state consistent (the hit frame is up
/// exactly while a revert is pending).
pub proof fn lemma_transitions_keep_consistency(state: (bool, Option<u64>), t: u64, now: u64)
    requires
        state.0 == state.1.is_some(),
        t + ANIMATION_HOLD_NANOS <= u64::MAX,
    ensures
        after_input(t).0 == after_input(t).1.is_some(),
        after_idle(state, now).0 == after_idle(state, now).1.is_some(),
{
}

} // verus!
