//! A plain test application: one window with one surface.
use crate::break_window::window::SurfaceUse;
use vstd::prelude::*;

verus! {

/// A window event, as far as the test application tells them apart.
#[derive(Clone, Copy, Debug, PartialEq, Eq, Structural)]
pub enum TestWindowEvent {
    /// The Escape key was pressed.
    EscapePressed,
    /// A window asked to be drawn.
    RedrawRequested,
    /// A window was destroyed.
    Destroyed,
    /// The user asked to close a window.
    CloseRequested,
    /// Any other window event.
    Other,
}

/// What the test application does after an event.
#[derive(Clone, Copy, Debug, PartialEq, Eq, Structural)]
pub enum TestAction {
    /// Nothing more.
    Nothing,
    /// Stop the event loop.
    Exit,
    /// Report that the window was destroyed, then stop the event loop.
    ExitDestroyed,
    /// Report on standard error that the surface was missing.
    MissingSurface(SurfaceUse),
    /// Fill the surface's `width` x `height` buffer with `fill_gradient` and present it.
    Draw { width: u32, height: u32 },
}

/// The test application: its window and the surface drawn on it, once created.
pub struct Application<W, S> {
    /// The window.
    pub window: Option<W>,
    /// The surface on the window.
    pub surface: Option<S>,
}

impl<W, S> Application<W, S> {
    /// The application after a window event, and what it does.
    pub open spec fn spec_window_event(
        self,
        event: TestWindowEvent,
        same_window: bool,
        inner_width: u32,
        inner_height: u32,
    ) -> (Self, TestAction) {
        match event {
            TestWindowEvent::EscapePressed => if same_window {
                (Application { window: None, surface: None }, TestAction::Exit)
            } else {
                (self, TestAction::Nothing)
            },
            TestWindowEvent::RedrawRequested => if !same_window {
                (self, TestAction::Nothing)
            } else if self.surface is None {
                (self, TestAction::MissingSurface(SurfaceUse::Redraw))
            } else if inner_width != 0 && inner_height != 0 {
                (self, TestAction::Draw { width: inner_width, height: inner_height })
            } else {
                (self, TestAction::Nothing)
            },
            TestWindowEvent::Destroyed => (self, TestAction::ExitDestroyed),
            TestWindowEvent::CloseRequested => (
                Application { window: None, ..self },
                TestAction::Nothing,
            ),
            TestWindowEvent::Other => (self, TestAction::Nothing),
        }
    }

    /// Creates the application before its window exists.
    pub fn new() -> (app: Self)
        ensures
            app.window is None,
            app.surface is None,
    {
        Application { window: None, surface: None }
    }

    /// The application was resumed and made its window and surface.
    pub fn resumed(&mut self, window: W, surface: S)
        ensures
            final(self).window == Some(window),
            final(self).surface == Some(surface),
    {
        self.window = Some(window);
        self.surface = Some(surface);
    }

    /// Decides what a window event does. `same_window` tells whether the
    /// event is about the application's window; `inner_width` x
    /// `inner_height` is that window's inner size. Escape and redraw requests
    /// are compared with the window, which must then exist.
    pub fn window_event(
        &mut self,
        event: TestWindowEvent,
        same_window: bool,
        inner_width: u32,
        inner_height: u32,
    ) -> (a: TestAction)
        requires
            (event == TestWindowEvent::EscapePressed || event == TestWindowEvent::RedrawRequested)
                ==> old(self).window is Some,
        ensures
            event == TestWindowEvent::EscapePressed && same_window ==> a == TestAction::Exit
                && final(self).window is None && final(self).surface is None,
            event == TestWindowEvent::RedrawRequested && same_window ==> *final(self) == *old(self)
                && a == (if old(self).surface is None {
                TestAction::MissingSurface(SurfaceUse::Redraw)
            } else if inner_width != 0 && inner_height != 0 {
                TestAction::Draw { width: inner_width, height: inner_height }
            } else {
                TestAction::Nothing
            }),
            event == TestWindowEvent::Destroyed ==> a == TestAction::ExitDestroyed && *final(self)
                == *old(self),
            event == TestWindowEvent::CloseRequested ==> a == TestAction::Nothing
                && final(self).window is None && final(self).surface == old(self).surface,
            ((event == TestWindowEvent::EscapePressed || event == TestWindowEvent::RedrawRequested)
                && !same_window) || event == TestWindowEvent::Other ==> a == TestAction::Nothing
                && *final(self) == *old(self),
            (*final(self), a) == old(self).spec_window_event(event, same_window, inner_width, inner_height),
    {
        match event {
            TestWindowEvent::EscapePressed => {
                if same_window {
                    // The surface goes before the window it draws on.
                    self.surface = None;
                    self.window = None;
                    TestAction::Exit
                } else {
                    TestAction::Nothing
                }
            },
            TestWindowEvent::RedrawRequested => {
                if !same_window {
                    TestAction::Nothing
                } else if self.surface.is_none() {
                    TestAction::MissingSurface(SurfaceUse::Redraw)
                } else if inner_width != 0 && inner_height != 0 {
                    TestAction::Draw { width: inner_width, height: inner_height }
                } else {
                    TestAction::Nothing
                }
            },
            TestWindowEvent::Destroyed => TestAction::ExitDestroyed,
            TestWindowEvent::CloseRequested => {
                self.window = None;
                TestAction::Nothing
            },
            TestWindowEvent::Other => TestAction::Nothing,
        }
    }
}


/// The test application stops exactly on Escape in its window (dropping the
/// window and surface) and on a destroyed window; it draws only on its
/// window's redraw request, with a surface and a non-empty window, at the
/// window's inner size; a close request drops only the window; every other
/// event changes nothing.
pub proof fn law_test_window_events<W, S>(
    app: Application<W, S>,
    event: TestWindowEvent,
    same_window: bool,
    inner_width: u32,
    inner_height: u32,
    width: u32,
    height: u32,
)
    ensures
        app.spec_window_event(event, same_window, inner_width, inner_height).1 == TestAction::Exit
            <==> (event == TestWindowEvent::EscapePressed && same_window),
        app.spec_window_event(event, same_window, inner_width, inner_height).1
            == TestAction::ExitDestroyed <==> event == TestWindowEvent::Destroyed,
        app.spec_window_event(event, same_window, inner_width, inner_height).1 == (TestAction::Draw {
            width,
            height,
        }) <==> (event == TestWindowEvent::RedrawRequested && same_window && app.surface is Some
            && width == inner_width && height == inner_height && width != 0 && height != 0),
        app.spec_window_event(event, same_window, inner_width, inner_height).1
            == TestAction::MissingSurface(SurfaceUse::Redraw) <==> (event
            == TestWindowEvent::RedrawRequested && same_window && app.surface is None),
        app.spec_window_event(event, same_window, inner_width, inner_height).1 == TestAction::Exit
            ==> app.spec_window_event(event, same_window, inner_width, inner_height).0.window is None
            && app.spec_window_event(event, same_window, inner_width, inner_height).0.surface is None,
        event == TestWindowEvent::CloseRequested ==> app.spec_window_event(
            event,
            same_window,
            inner_width,
            inner_height,
        ).0.window is None && app.spec_window_event(
            event,
            same_window,
            inner_width,
            inner_height,
        ).0.surface == app.surface,
        !(event == TestWindowEvent::CloseRequested || (event == TestWindowEvent::EscapePressed
            && same_window)) ==> app.spec_window_event(event, same_window, inner_width, inner_height).0
            == app,
{
}

} // verus!
