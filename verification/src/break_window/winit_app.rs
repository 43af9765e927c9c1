//! The state and decisions of an easily constructed windowing application.
//!
//! The application keeps three closures (to create its state, to create the
//! surface for that state, and to handle events) together with the state
//! and surface they made. The event loop runs those closures; this module
//! decides, for each callback of the event loop, what happens to the state
//! and surface and whether the event goes on to the handler.
use crate::break_window::window::CustomEvent;
use vstd::prelude::*;

verus! {

/// A window event, as far as the application's own handling tells them apart.
#[derive(Clone, Copy, Debug, PartialEq, Eq, Structural)]
pub enum AppWindowEvent {
    /// The user asked to close the window.
    CloseRequested,
    /// The Escape key was pressed.
    EscapePressed,
    /// The window was destroyed.
    Destroyed,
    /// Any other window event.
    Other,
}

/// What the event loop does with an event once the application has seen it.
#[derive(Clone, Copy, Debug, PartialEq, Eq, Structural)]
pub enum AppStep {
    /// Stop the event loop; the handler does not see the event.
    Exit,
    /// Hand the event to the handler, with the state and the surface.
    Forward,
    /// Nothing more happens.
    Ignore,
}

/// Builder that makes it so the state type need not be named.
pub struct WinitAppBuilder<T, S, Init, InitSurface> {
    /// Closure to initialize the state.
    pub init: Init,
    /// Closure to initialize the surface state.
    pub init_surface: InitSurface,
    /// Eats the type parameters.
    pub _marker: core::marker::PhantomData<(Option<T>, Option<S>)>,
}

impl<T, S, Init, InitSurface> WinitAppBuilder<T, S, Init, InitSurface> {
    /// Creates the builder with its two initialization closures.
    pub fn with_init(init: Init, init_surface: InitSurface) -> (b: Self)
        ensures
            b.init == init,
            b.init_surface == init_surface,
    {
        WinitAppBuilder { init, init_surface, _marker: core::marker::PhantomData }
    }

    /// Builds the application with its event handler.
    pub fn with_event_handler<F>(self, handler: F) -> (app: WinitApp<T, S, Init, InitSurface, F>)
        ensures
            app.init == self.init,
            app.init_surface == self.init_surface,
            app.event == handler,
            app.state is None,
            app.surface_state is None,
    {
        WinitApp::new(self.init, self.init_surface, handler)
    }
}

/// An easily constructed windowing application.
pub struct WinitApp<T, S, Init, InitSurface, Handler> {
    /// Closure to initialize the state.
    pub init: Init,
    /// Closure to initialize the surface state.
    pub init_surface: InitSurface,
    /// Closure to run on window events.
    pub event: Handler,
    /// Contained state.
    pub state: Option<T>,
    /// Contained surface state.
    pub surface_state: Option<S>,
}

impl<T, S, Init, InitSurface, Handler> WinitApp<T, S, Init, InitSurface, Handler> {
    /// The application after its window was dropped: if it has a state, the
    /// surface and the state are both gone; otherwise nothing changes.
    pub open spec fn spec_drop_window(self) -> Self {
        if self.state is Some {
            WinitApp { state: None, surface_state: None, ..self }
        } else {
            self
        }
    }

    /// Hands an event on while there is a state to see it with.
    pub open spec fn forward_if_state(self) -> AppStep {
        if self.state is Some {
            AppStep::Forward
        } else {
            AppStep::Ignore
        }
    }

    /// The application after a window event, and what happens to the event.
    pub open spec fn spec_window_event(self, event: AppWindowEvent) -> (Self, AppStep) {
        match event {
            AppWindowEvent::CloseRequested | AppWindowEvent::EscapePressed => (
                self.spec_drop_window(),
                self.spec_drop_window().forward_if_state(),
            ),
            AppWindowEvent::Destroyed => (self, AppStep::Exit),
            AppWindowEvent::Other => (self, self.forward_if_state()),
        }
    }

    /// The application after an event of its own, and what happens to the event.
    pub open spec fn spec_user_event(self, event: CustomEvent) -> (Self, AppStep) {
        match event {
            CustomEvent::CLOSE => (self.spec_drop_window(), AppStep::Ignore),
            CustomEvent::REDRAW => (self, self.forward_if_state()),
        }
    }

    /// Creates a new application, with no state and no surface yet.
    pub fn new(init: Init, init_surface: InitSurface, event: Handler) -> (app: Self)
        ensures
            app.init == init,
            app.init_surface == init_surface,
            app.event == event,
            app.state is None,
            app.surface_state is None,
    {
        WinitApp { init, init_surface, event, state: None, surface_state: None }
    }

    /// Drops the surface and then the state, if there is a state.
    pub fn drop_window(&mut self)
        ensures
            *final(self) == old(self).spec_drop_window(),
    {
        if self.state.is_some() {
            // The surface goes before the state that owns its window.
            self.surface_state = None;
            self.state = None;
        }
    }

    /// The application was resumed: keeps the state and the surface that its
    /// initialization closures made.
    pub fn resumed(&mut self, state: T, surface_state: S)
        ensures
            final(self).state == Some(state),
            final(self).surface_state == Some(surface_state),
            final(self).init == old(self).init,
            final(self).init_surface == old(self).init_surface,
            final(self).event == old(self).event,
    {
        self.surface_state = Some(surface_state);
        self.state = Some(state);
    }

    /// The application was suspended: the surface is given up (and returned
    /// to the caller to drop); the state stays.
    pub fn suspended(&mut self) -> (surface_state: Option<S>)
        ensures
            surface_state == old(self).surface_state,
            *final(self) == (WinitApp { surface_state: None, ..*old(self) }),
    {
        self.surface_state.take()
    }

    /// Decides what a window event does. Closing or Escape drops the window
    /// (and the handler then has no state to see it with); a destroyed window
    /// stops the event loop; the handler sees the remaining events while
    /// there is a state.
    pub fn window_event(&mut self, event: AppWindowEvent) -> (step: AppStep)
        ensures
            event == AppWindowEvent::Destroyed ==> step == AppStep::Exit && *final(self) == *old(self),
            (event == AppWindowEvent::CloseRequested || event == AppWindowEvent::EscapePressed)
                ==> step == AppStep::Ignore && *final(self) == old(self).spec_drop_window(),
            event == AppWindowEvent::Other ==> *final(self) == *old(self) && step == (if old(
                self,
            ).state is Some {
                AppStep::Forward
            } else {
                AppStep::Ignore
            }),
            (*final(self), step) == old(self).spec_window_event(event),
    {
        match event {
            AppWindowEvent::CloseRequested | AppWindowEvent::EscapePressed => {
                self.drop_window();
            },
            AppWindowEvent::Destroyed => {
                return AppStep::Exit;
            },
            AppWindowEvent::Other => {},
        }
        if self.state.is_some() {
            AppStep::Forward
        } else {
            AppStep::Ignore
        }
    }

    /// The event loop is about to wait: the handler hears of it while there is a state.
    pub fn about_to_wait(&self) -> (step: AppStep)
        ensures
            step == (if self.state is Some {
                AppStep::Forward
            } else {
                AppStep::Ignore
            }),
            step == self.forward_if_state(),
    {
        if self.state.is_some() {
            AppStep::Forward
        } else {
            AppStep::Ignore
        }
    }

    /// Decides what an event of the application's own does: `CLOSE` drops
    /// the window, `REDRAW` goes to the handler while there is a state.
    pub fn user_event(&mut self, event: CustomEvent) -> (step: AppStep)
        ensures
            event == CustomEvent::CLOSE ==> step == AppStep::Ignore && *final(self)
                == old(self).spec_drop_window(),
            event == CustomEvent::REDRAW ==> *final(self) == *old(self) && step == (if old(
                self,
            ).state is Some {
                AppStep::Forward
            } else {
                AppStep::Ignore
            }),
            (*final(self), step) == old(self).spec_user_event(event),
    {
        match event {
            CustomEvent::CLOSE => {
                self.drop_window();
                AppStep::Ignore
            },
            CustomEvent::REDRAW => {
                if self.state.is_some() {
                    AppStep::Forward
                } else {
                    AppStep::Ignore
                }
            },
        }
    }
}

/// Dropping the window leaves no state; with a state, it takes the surface
/// too; without one, nothing changes; the closures always stay. Dropping it
/// twice is the same as dropping it once.
pub proof fn law_drop_window_idempotent<T, S, Init, InitSurface, Handler>(
    app: WinitApp<T, S, Init, InitSurface, Handler>,
)
    ensures
        app.spec_drop_window().spec_drop_window() == app.spec_drop_window(),
        app.spec_drop_window().state is None,
        app.state is Some ==> app.spec_drop_window().surface_state is None,
        app.state is None ==> app.spec_drop_window() == app,
        app.spec_drop_window().init == app.init,
        app.spec_drop_window().init_surface == app.init_surface,
        app.spec_drop_window().event == app.event,
{
}


/// Window events: the event loop stops exactly on a destroyed window; the
/// handler sees exactly the other events while there is a state; closing or
/// Escape leaves no state; the closures never change, and only closing or
/// Escape changes anything.
pub proof fn law_window_events<T, S, Init, InitSurface, Handler>(
    app: WinitApp<T, S, Init, InitSurface, Handler>,
    event: AppWindowEvent,
)
    ensures
        app.spec_window_event(event).1 == AppStep::Exit <==> event == AppWindowEvent::Destroyed,
        app.spec_window_event(event).1 == AppStep::Forward <==> (event == AppWindowEvent::Other
            && app.state is Some),
        (event == AppWindowEvent::CloseRequested || event == AppWindowEvent::EscapePressed)
            ==> app.spec_window_event(event).0.state is None,
        (event == AppWindowEvent::Destroyed || event == AppWindowEvent::Other)
            ==> app.spec_window_event(event).0 == app,
        app.spec_window_event(event).0.init == app.init,
        app.spec_window_event(event).0.init_surface == app.init_surface,
        app.spec_window_event(event).0.event == app.event,
{
}

/// The application's own events: `CLOSE` leaves no state and is not handed
/// on; `REDRAW` changes nothing and reaches the handler exactly while there
/// is a state; neither stops the event loop.
pub proof fn law_user_events<T, S, Init, InitSurface, Handler>(
    app: WinitApp<T, S, Init, InitSurface, Handler>,
    event: CustomEvent,
)
    ensures
        app.spec_user_event(event).1 != AppStep::Exit,
        app.spec_user_event(event).1 == AppStep::Forward <==> (event == CustomEvent::REDRAW
            && app.state is Some),
        event == CustomEvent::CLOSE ==> app.spec_user_event(event).0.state is None,
        event == CustomEvent::REDRAW ==> app.spec_user_event(event).0 == app,
        app.spec_user_event(event).0.event == app.event,
        app.forward_if_state() == AppStep::Forward <==> app.state is Some,
        app.forward_if_state() != AppStep::Exit,
{
}

} // verus!
