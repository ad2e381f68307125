//! The application host: the window's lifecycle and how platform events
//! are routed to the session or to loop control.
use vstd::prelude::*;
use crate::input::{key_command, Key, KeyCommand};
use crate::surface::{State, SurfaceError};

verus! {

/// A platform event for a window, as the host reads it. A keyboard event
/// whose physical key could not be resolved carries `None`.
#[derive(Clone, Copy, Debug, PartialEq, Eq, Structural)]
pub enum HostEvent {
    CloseRequested,
    KeyboardInput { key: Option<Key>, pressed: bool },
    RedrawRequested,
    Other,
}

/// What the loop is to do for an event.
#[derive(Clone, Copy, Debug, PartialEq, Eq, Structural)]
pub enum HostAction {
    /// Nothing.
    Ignore,
    /// End the event loop.
    Exit,
    /// Carry out the session's command for a key.
    Key(KeyCommand),
    /// Render one frame, then ask for the next redraw.
    Render,
}

/// What follows a frame: the error to report, if any, and whether to ask
/// for another redraw.
#[derive(Clone, Copy, Debug, PartialEq, Eq, Structural)]
pub struct FrameFollowUp {
    pub report: Option<SurfaceError>,
    pub request_redraw: bool,
}

/// The host's state: the id of its window and the session bound to it.
/// Both are empty until the first activation and set together by it.
#[derive(Clone, Copy, Debug, PartialEq, Eq, Structural)]
pub struct App {
    pub window: Option<u64>,
    pub state: Option<State>,
}

/// The action for an event sent to window `window_id`.
pub open spec fn event_action(app: App, window_id: u64, event: HostEvent) -> HostAction {
    if app.window != Some(window_id) || app.state is None {
        HostAction::Ignore
    } else {
        match event {
            HostEvent::CloseRequested => HostAction::Exit,
            HostEvent::KeyboardInput { key, pressed } => match key {
                Some(k) => HostAction::Key(key_command(k, pressed)),
                None => HostAction::Ignore,
            },
            HostEvent::RedrawRequested => HostAction::Render,
            HostEvent::Other => HostAction::Ignore,
        }
    }
}

impl App {
    /// A host with no window and no session.
    pub fn new() -> (r: App)
        ensures
            r.window is None,
            r.state is None,
    {
        App { window: None, state: None }
    }

    /// Whether a window has been created.
    pub open spec fn is_active(self) -> bool {
        self.window is Some
    }

    /// The host after an activation that created window `window_id` with
    /// session `state`; a host that has a window stays as it is.
    pub open spec fn activated(self, window_id: u64, state: State) -> App {
        if self.is_active() {
            self
        } else {
            App { window: Some(window_id), state: Some(state) }
        }
    }

    /// Whether the platform's activation signal must create the window
    /// and its session: only while there is no window yet.
    pub fn on_activated(&self) -> (r: bool)
        ensures
            r == !self.is_active(),
    {
        self.window.is_none()
    }

    /// Records the window and session that an activation created. A host
    /// that has a window already keeps it and its session.
    pub fn activate(&mut self, window_id: u64, state: State)
        ensures
            *final(self) == old(self).activated(window_id, state),
    {
        if self.window.is_none() {
            self.window = Some(window_id);
            self.state = Some(state);
        }
    }

    /// Routes an event sent to window `window_id`. Events for another
    /// window, or before a session exists, are ignored; a close request
    /// ends the loop; a resolved key goes to the session's key dispatch;
    /// a redraw request renders a frame; anything else is ignored.
    pub fn window_event(&self, window_id: u64, event: HostEvent) -> (r: HostAction)
        ensures
            r == event_action(*self, window_id, event),
    {
        let same = match self.window {
            Some(w) => w == window_id,
            None => false,
        };
        if !same {
            return HostAction::Ignore;
        }
        match &self.state {
            None => HostAction::Ignore,
            Some(state) => match event {
                HostEvent::CloseRequested => HostAction::Exit,
                HostEvent::KeyboardInput { key, pressed } => match key {
                    Some(k) => HostAction::Key(state.handle_key(k, pressed)),
                    None => HostAction::Ignore,
                },
                HostEvent::RedrawRequested => HostAction::Render,
                HostEvent::Other => HostAction::Ignore,
            },
        }
    }
}

/// What follows a rendered frame: a surface error is reported and the
/// loop goes on; either way the next redraw is requested.
pub fn after_render(result: Result<(), SurfaceError>) -> (r: FrameFollowUp)
    ensures
        r.request_redraw,
        r.report == match result {
            Ok(()) => None,
            Err(e) => Some(e),
        },
{
    match result {
        Ok(()) => FrameFollowUp { report: None, request_redraw: true },
        Err(e) => FrameFollowUp { report: Some(e), request_redraw: true },
    }
}

impl Default for App {
    /// A host with no window and no session.
    fn default() -> (r: App)
        ensures
            r.window is None,
            r.state is None,
    {
        App::new()
    }
}

/// An event sent to any window but the host's own leaves the host as it
/// is and asks nothing of the loop, whatever the event.
pub proof fn lemma_foreign_window_ignored(app: App, window_id: u64, event: HostEvent)
    requires
        app.window != Some(window_id),
    ensures
        event_action(app, window_id, event) == HostAction::Ignore,
{
}

/// Activation is idempotent: once a window exists, the activation signal
/// creates no other, and a second activation leaves the host unchanged.
pub proof fn lemma_activation_idempotent(
    app: App,
    first_id: u64,
    first: State,
    second_id: u64,
    second: State,
)
    ensures
        app.activated(first_id, first).is_active(),
        app.activated(first_id, first).activated(second_id, second) == app.activated(
            first_id,
            first,
        ),
{
}

} // verus!
