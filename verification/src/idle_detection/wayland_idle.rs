//! Idle time from the Wayland idle-notify protocol.
//!
//! The compositor tells each seat's notification when the user goes idle
//! and when the user comes back; the time of the last change is kept, and
//! the idle time is the time since then.
use crate::text::same_text;
use vstd::prelude::*;

verus! {

/// How long the compositor waits, in milliseconds, before it reports a seat as idle.
pub const IDLE_NOTIFICATION_TIMEOUT_MS: u32 = 1000;

/// An event of an idle notification.
#[derive(Clone, Copy, Debug, PartialEq, Eq, Structural)]
pub enum NotificationEvent {
    /// The user went idle.
    Idled,
    /// The user is active again.
    Resumed,
    /// Any other event.
    Other,
}

/// A global that the registry announces.
#[derive(Clone, Copy, Debug, PartialEq, Eq, Structural)]
pub enum RegistryGlobal {
    /// A seat (`wl_seat`), whose idleness is watched.
    Seat,
    /// The idle notifier (`ext_idle_notifier_v1`).
    IdleNotifier,
    /// Any other interface, which is ignored.
    Other,
}

/// Which global an interface name announces.
pub open spec fn spec_registry_global(interface: Seq<char>) -> RegistryGlobal {
    if interface == "wl_seat"@ {
        RegistryGlobal::Seat
    } else if interface == "ext_idle_notifier_v1"@ {
        RegistryGlobal::IdleNotifier
    } else {
        RegistryGlobal::Other
    }
}

/// Tells which global the registry announces under the interface name `interface`.
pub fn registry_global(interface: &str) -> (g: RegistryGlobal)
    ensures
        g == spec_registry_global(interface@),
{
    if same_text(interface, "wl_seat") {
        RegistryGlobal::Seat
    } else if same_text(interface, "ext_idle_notifier_v1") {
        RegistryGlobal::IdleNotifier
    } else {
        RegistryGlobal::Other
    }
}

/// The recorded time of the last activity change after `event`, where
/// `now_secs` is the clock reading taken when the event came: going idle
/// records the reading, coming back records zero, anything else keeps `last`.
pub open spec fn spec_last_activity_after(event: NotificationEvent, now_secs: u64, last: u64) -> u64 {
    match event {
        NotificationEvent::Idled => now_secs,
        NotificationEvent::Resumed => 0,
        NotificationEvent::Other => last,
    }
}

/// Records an event of an idle notification (see `spec_last_activity_after`).
pub fn last_activity_after(event: NotificationEvent, now_secs: u64, last: u64) -> (r: u64)
    ensures
        r == spec_last_activity_after(event, now_secs, last),
{
    match event {
        NotificationEvent::Idled => now_secs,
        NotificationEvent::Resumed => 0,
        NotificationEvent::Other => last,
    }
}

/// The idle time, in seconds, from the clock reading `current_secs` and the
/// recorded time of the last activity change: their difference, or zero if
/// the record is later than the reading.
pub open spec fn spec_idle_secs(current_secs: u64, last_activity_secs: u64) -> u64 {
    if current_secs >= last_activity_secs {
        (current_secs - last_activity_secs) as u64
    } else {
        0
    }
}

/// Measures the idle time (see `spec_idle_secs`).
pub fn get_idle_time(current_secs: u64, last_activity_secs: u64) -> (idle: u64)
    ensures
        idle == spec_idle_secs(current_secs, last_activity_secs),
{
    if current_secs >= last_activity_secs {
        current_secs - last_activity_secs
    } else {
        0
    }
}


/// Only the exact name `wl_seat` announces a seat and only the exact name
/// `ext_idle_notifier_v1` the idle notifier; every other name is ignored.
pub proof fn law_registry_globals_by_exact_name(interface: Seq<char>)
    ensures
        spec_registry_global(interface) == RegistryGlobal::Seat <==> interface == "wl_seat"@,
        spec_registry_global(interface) == RegistryGlobal::IdleNotifier <==> interface
            == "ext_idle_notifier_v1"@,
{
    if interface == "wl_seat"@ {
        assert("wl_seat"@ != "ext_idle_notifier_v1"@) by {
            reveal_strlit("wl_seat");
            reveal_strlit("ext_idle_notifier_v1");
            assert("wl_seat"@.len() != "ext_idle_notifier_v1"@.len());
        }
    }
}


/// The idle time is the time elapsed since the last recorded change: added
/// to the record it gives the clock reading, and it is zero when the record
/// is not earlier than the reading. It never exceeds the reading.
pub proof fn law_idle_time_is_elapsed_time(current_secs: u64, last_activity_secs: u64)
    ensures
        current_secs >= last_activity_secs ==> spec_idle_secs(current_secs, last_activity_secs)
            + last_activity_secs == current_secs,
        current_secs <= last_activity_secs ==> spec_idle_secs(current_secs, last_activity_secs)
            == 0,
        spec_idle_secs(current_secs, last_activity_secs) <= current_secs,
{
}

/// Coming back makes the idle time the full clock reading; going idle makes
/// it zero at that reading; other events change nothing.
pub proof fn law_notifications_move_the_record(now_secs: u64, last: u64)
    ensures
        spec_idle_secs(now_secs, spec_last_activity_after(NotificationEvent::Resumed, now_secs, last))
            == now_secs,
        spec_idle_secs(now_secs, spec_last_activity_after(NotificationEvent::Idled, now_secs, last))
            == 0,
        spec_last_activity_after(NotificationEvent::Other, now_secs, last) == last,
        spec_last_activity_after(NotificationEvent::Resumed, now_secs, last) == 0,
        spec_last_activity_after(NotificationEvent::Idled, now_secs, last) == now_secs,
{
}

} // verus!
