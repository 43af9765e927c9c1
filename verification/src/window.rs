//! The first version of the break window, which closes itself on request.
use crate::break_window::window::SurfaceUse;
use vstd::prelude::*;
use vstd::string::*;

verus! {

/// Events that the program sends to this window's event loop.
#[allow(non_camel_case_types)]
#[derive(Clone, Copy, Debug, PartialEq, Eq, Structural)]
pub enum CustomEvent {
    /// Close the window.
    CLOSE,
}

/// An event that reaches this window's handler.
#[derive(Clone, Copy, Debug, PartialEq, Eq, Structural)]
pub enum EntryEvent {
    /// A window was resized to `width` x `height` pixels.
    Resized { width: u32, height: u32 },
    /// A window asked to be drawn.
    RedrawRequested,
    /// The user asked to close a window.
    CloseRequested,
    /// The Escape key was pressed.
    EscapePressed,
    /// Any other window event.
    OtherWindowEvent,
    /// The event loop is about to wait.
    AboutToWait,
    /// An event the program sent.
    User(CustomEvent),
    /// Any other event.
    Other,
}

/// What this window's handler does with an event.
#[derive(Clone, Copy, Debug, PartialEq, Eq, Structural)]
pub enum EntryAction {
    /// Nothing.
    Nothing,
    /// Report on standard error that the surface was missing.
    MissingSurface(SurfaceUse),
    /// Resize the surface to `width` x `height`.
    ResizeSurface { width: u32, height: u32 },
    /// Fill the surface's `width` x `height` buffer with `fill_gradient` and present it.
    Draw { width: u32, height: u32 },
    /// Stop the event loop.
    Exit,
    /// Report that the window should exit (see `exit_message`), then stop the event loop.
    ExitOnRequest,
    /// Report the event as unhandled.
    ReportUnhandled,
}

/// What the handler does with `event`. `same_window` tells whether a window
/// event is about this window, `has_surface` whether the surface exists, and
/// `inner_width` x `inner_height` is the window's inner size (read for
/// drawing only).
pub open spec fn spec_entry_action(
    event: EntryEvent,
    same_window: bool,
    has_surface: bool,
    inner_width: u32,
    inner_height: u32,
) -> EntryAction {
    match event {
        EntryEvent::Resized { width, height } => if !same_window {
            EntryAction::Nothing
        } else if !has_surface {
            EntryAction::MissingSurface(SurfaceUse::Resize)
        } else if width != 0 && height != 0 {
            EntryAction::ResizeSurface { width, height }
        } else {
            EntryAction::Nothing
        },
        EntryEvent::RedrawRequested => if !same_window {
            EntryAction::Nothing
        } else if !has_surface {
            EntryAction::MissingSurface(SurfaceUse::Redraw)
        } else if inner_width != 0 && inner_height != 0 {
            EntryAction::Draw { width: inner_width, height: inner_height }
        } else {
            EntryAction::Nothing
        },
        EntryEvent::CloseRequested | EntryEvent::EscapePressed => if same_window {
            EntryAction::Exit
        } else {
            EntryAction::Nothing
        },
        EntryEvent::OtherWindowEvent => EntryAction::Nothing,
        EntryEvent::AboutToWait => EntryAction::Nothing,
        EntryEvent::User(CustomEvent::CLOSE) => EntryAction::ExitOnRequest,
        EntryEvent::Other => EntryAction::ReportUnhandled,
    }
}

/// Decides what the handler does with an event (see `spec_entry_action`).
pub fn entry_action(
    event: EntryEvent,
    same_window: bool,
    has_surface: bool,
    inner_width: u32,
    inner_height: u32,
) -> (a: EntryAction)
    ensures
        a == spec_entry_action(event, same_window, has_surface, inner_width, inner_height),
{
    match event {
        EntryEvent::Resized { width, height } => if !same_window {
            EntryAction::Nothing
        } else if !has_surface {
            EntryAction::MissingSurface(SurfaceUse::Resize)
        } else if width != 0 && height != 0 {
            EntryAction::ResizeSurface { width, height }
        } else {
            EntryAction::Nothing
        },
        EntryEvent::RedrawRequested => if !same_window {
            EntryAction::Nothing
        } else if !has_surface {
            EntryAction::MissingSurface(SurfaceUse::Redraw)
        } else if inner_width != 0 && inner_height != 0 {
            EntryAction::Draw { width: inner_width, height: inner_height }
        } else {
            EntryAction::Nothing
        },
        EntryEvent::CloseRequested | EntryEvent::EscapePressed => if same_window {
            EntryAction::Exit
        } else {
            EntryAction::Nothing
        },
        EntryEvent::OtherWindowEvent => EntryAction::Nothing,
        EntryEvent::AboutToWait => EntryAction::Nothing,
        EntryEvent::User(CustomEvent::CLOSE) => EntryAction::ExitOnRequest,
        EntryEvent::Other => EntryAction::ReportUnhandled,
    }
}

/// The report printed before the window exits on request.
pub fn exit_message() -> (msg: String)
    ensures
        msg@ == "should exit"@,
{
    String::from_str("should exit")
}


/// This window exits on its own window's close request or Escape key, and
/// on `CLOSE` after reporting it; it draws only on its own window's redraw
/// request, when the surface exists and the window is not empty, at the
/// window's inner size; it resizes only on its own window's resize to a
/// non-empty size, to that size, when the surface exists; it reports a
/// missing surface only for those two requests; and it reports exactly the
/// events that are neither window events nor its own as unhandled.
pub proof fn law_entry_actions(
    event: EntryEvent,
    same_window: bool,
    has_surface: bool,
    inner_width: u32,
    inner_height: u32,
    width: u32,
    height: u32,
)
    ensures
        spec_entry_action(event, same_window, has_surface, inner_width, inner_height)
            == EntryAction::Exit <==> ((event == EntryEvent::CloseRequested || event
            == EntryEvent::EscapePressed) && same_window),
        spec_entry_action(event, same_window, has_surface, inner_width, inner_height)
            == EntryAction::ExitOnRequest <==> event == EntryEvent::User(CustomEvent::CLOSE),
        spec_entry_action(event, same_window, has_surface, inner_width, inner_height)
            == (EntryAction::Draw { width, height }) <==> (event == EntryEvent::RedrawRequested
            && same_window && has_surface && width == inner_width && height == inner_height && width
            != 0 && height != 0),
        spec_entry_action(event, same_window, has_surface, inner_width, inner_height)
            == (EntryAction::ResizeSurface { width, height }) <==> (event == (EntryEvent::Resized {
            width,
            height,
        }) && same_window && has_surface && width != 0 && height != 0),
        spec_entry_action(event, same_window, has_surface, inner_width, inner_height)
            == EntryAction::MissingSurface(SurfaceUse::Redraw) <==> (event
            == EntryEvent::RedrawRequested && same_window && !has_surface),
        spec_entry_action(event, same_window, has_surface, inner_width, inner_height)
            == EntryAction::MissingSurface(SurfaceUse::Resize) <==> (event is Resized && same_window
            && !has_surface),
        spec_entry_action(event, same_window, has_surface, inner_width, inner_height)
            == EntryAction::ReportUnhandled <==> event == EntryEvent::Other,
{
}

} // verus!
