//! Which means of measuring idle time the session offers.
use crate::text::{decimal, push_decimal, same_text};
use vstd::prelude::*;
use vstd::string::*;

verus! {

/// Where the idle time is read from.
#[derive(Clone, Copy, Debug, PartialEq, Eq, Structural)]
pub enum IdleSource {
    /// The Wayland idle-notify protocol.
    Wayland,
    /// The X11 screen saver extension.
    X11,
    /// Neither: the idle time is taken to be zero.
    Unavailable,
}

/// Wayland is preferred, then X11.
pub open spec fn spec_select_idle_source(is_wayland: bool, is_x11: bool) -> IdleSource {
    if is_wayland {
        IdleSource::Wayland
    } else if is_x11 {
        IdleSource::X11
    } else {
        IdleSource::Unavailable
    }
}

/// Chooses where the idle time is read from (see `spec_select_idle_source`).
pub fn select_idle_source(is_wayland: bool, is_x11: bool) -> (s: IdleSource)
    ensures
        s == spec_select_idle_source(is_wayland, is_x11),
{
    if is_wayland {
        IdleSource::Wayland
    } else if is_x11 {
        IdleSource::X11
    } else {
        IdleSource::Unavailable
    }
}

/// Whether the session is a Wayland session. `xdg_session_type` is the value
/// of `XDG_SESSION_TYPE` when it is set (and valid text); when it is set, it
/// alone decides. Otherwise the session is Wayland when `WAYLAND_DISPLAY` is
/// set and the user's Wayland socket exists.
pub open spec fn spec_session_is_wayland(
    xdg_session_type: Option<Seq<char>>,
    wayland_display_set: bool,
    socket_exists: bool,
) -> bool {
    match xdg_session_type {
        Some(kind) => kind == "wayland"@,
        None => wayland_display_set && socket_exists,
    }
}

/// Decides whether the session is a Wayland session (see `spec_session_is_wayland`).
pub fn session_is_wayland(
    xdg_session_type: Option<&str>,
    wayland_display_set: bool,
    socket_exists: bool,
) -> (r: bool)
    ensures
        r == spec_session_is_wayland(
            match xdg_session_type {
                Some(kind) => Some(kind@),
                None => None,
            },
            wayland_display_set,
            socket_exists,
        ),
{
    match xdg_session_type {
        Some(kind) => same_text(kind, "wayland"),
        None => wayland_display_set && socket_exists,
    }
}

/// The path of the Wayland socket of the user `uid`: `/run/user/<uid>/wayland-0`.
pub fn wayland_socket_path(uid: u32) -> (path: String)
    ensures
        path@ == "/run/user/"@ + decimal(uid as nat) + "/wayland-0"@,
{
    let mut path = String::from_str("/run/user/");
    push_decimal(&mut path, uid);
    path.append("/wayland-0");
    path
}


/// When `XDG_SESSION_TYPE` is set it alone decides, and the session is
/// Wayland exactly when it reads `wayland`; otherwise the session is Wayland
/// only when `WAYLAND_DISPLAY` is set and the socket exists, both.
pub proof fn law_wayland_session_detection(
    kind: Seq<char>,
    display_set: bool,
    socket: bool,
    other_display_set: bool,
    other_socket: bool,
)
    ensures
        spec_session_is_wayland(Some(kind), display_set, socket) == spec_session_is_wayland(
            Some(kind),
            other_display_set,
            other_socket,
        ),
        spec_session_is_wayland(Some("wayland"@), display_set, socket),
        kind != "wayland"@ ==> !spec_session_is_wayland(Some(kind), display_set, socket),
        spec_session_is_wayland(None, display_set, socket) ==> display_set && socket,
        spec_session_is_wayland(None, true, true),
{
}


/// A source is only chosen when the session offers it; Wayland wins whenever
/// it is offered; the idle time is unavailable exactly when neither is.
pub proof fn law_idle_source_is_offered(is_wayland: bool, is_x11: bool)
    ensures
        spec_select_idle_source(is_wayland, is_x11) == IdleSource::Wayland <==> is_wayland,
        spec_select_idle_source(is_wayland, is_x11) == IdleSource::X11 <==> !is_wayland && is_x11,
        spec_select_idle_source(is_wayland, is_x11) == IdleSource::Unavailable <==> !is_wayland
            && !is_x11,
{
}

} // verus!
