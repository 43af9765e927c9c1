use gtfu::break_window::testing_windows::{Application, TestAction, TestWindowEvent};
use gtfu::break_window::window::{
    fill_gradient, frame_action, CustomEvent, FrameAction, FrameEvent, SurfaceUse,
};
use gtfu::break_window::winit_app::{AppStep, AppWindowEvent, WinitApp, WinitAppBuilder};
use gtfu::idle_detection::idle::{
    select_idle_source, session_is_wayland, wayland_socket_path, IdleSource,
};
use gtfu::idle_detection::wayland_idle::{
    get_idle_time, last_activity_after, registry_global, NotificationEvent, RegistryGlobal,
    IDLE_NOTIFICATION_TIMEOUT_MS,
};
use gtfu::text::same_text;
use gtfu::window::{entry_action, exit_message, EntryAction, EntryEvent};

#[test]
fn wayland_idle_time_is_time_since_last_change() {
    assert_eq!(get_idle_time(100, 40), 60);
    assert_eq!(get_idle_time(40, 40), 0);
    assert_eq!(get_idle_time(10, 40), 0);
    assert_eq!(get_idle_time(u64::MAX, 0), u64::MAX);
}

#[test]
fn notification_events_record_activity() {
    assert_eq!(last_activity_after(NotificationEvent::Idled, 77, 5), 77);
    assert_eq!(last_activity_after(NotificationEvent::Resumed, 77, 5), 0);
    assert_eq!(last_activity_after(NotificationEvent::Other, 77, 5), 5);
    assert_eq!(IDLE_NOTIFICATION_TIMEOUT_MS, 1000);
}

#[test]
fn registry_globals_by_interface_name() {
    assert_eq!(registry_global("wl_seat"), RegistryGlobal::Seat);
    assert_eq!(registry_global("ext_idle_notifier_v1"), RegistryGlobal::IdleNotifier);
    assert_eq!(registry_global("wl_compositor"), RegistryGlobal::Other);
    assert_eq!(registry_global("wl_seat "), RegistryGlobal::Other);
    assert_eq!(registry_global(""), RegistryGlobal::Other);
}

#[test]
fn idle_source_prefers_wayland_then_x11() {
    assert_eq!(select_idle_source(true, true), IdleSource::Wayland);
    assert_eq!(select_idle_source(true, false), IdleSource::Wayland);
    assert_eq!(select_idle_source(false, true), IdleSource::X11);
    assert_eq!(select_idle_source(false, false), IdleSource::Unavailable);
}

#[test]
fn session_type_decides_wayland_when_set() {
    assert!(session_is_wayland(Some("wayland"), false, false));
    assert!(!session_is_wayland(Some("x11"), true, true));
    assert!(!session_is_wayland(Some("Wayland"), true, true));
    assert!(session_is_wayland(None, true, true));
    assert!(!session_is_wayland(None, true, false));
    assert!(!session_is_wayland(None, false, true));
}

#[test]
fn wayland_socket_path_of_user() {
    assert_eq!(wayland_socket_path(1000), "/run/user/1000/wayland-0");
    assert_eq!(wayland_socket_path(0), "/run/user/0/wayland-0");
    assert_eq!(wayland_socket_path(u32::MAX), "/run/user/4294967295/wayland-0");
}

#[test]
fn same_text_compares_characters() {
    assert!(same_text("abc", "abc"));
    assert!(!same_text("abc", "abd"));
    assert!(!same_text("abc", "ab"));
    assert!(same_text("", ""));
    assert!(same_text("é", "é"));
}

#[test]
fn fill_gradient_colours_each_pixel() {
    let mut buffer = vec![7u32; 3 * 2 + 2];
    fill_gradient(&mut buffer, 3, 2);
    for y in 0..2u32 {
        for x in 0..3u32 {
            let expected = ((x % 255) << 16) | ((y % 255) << 8) | ((x * y) % 255);
            assert_eq!(buffer[(y * 3 + x) as usize], expected);
        }
    }
    assert_eq!(buffer[1 * 3 + 2], (2 << 16) | (1 << 8) | 2);
    assert_eq!(buffer[6], 7);
    assert_eq!(buffer[7], 7);
}

#[test]
fn fill_gradient_wraps_channels_at_255() {
    let width = 300u32;
    let height = 260u32;
    let mut buffer = vec![0u32; (width * height) as usize];
    fill_gradient(&mut buffer, width, height);
    let at = |x: u32, y: u32| buffer[(y * width + x) as usize];
    assert_eq!(at(255, 0), 0);
    assert_eq!(at(256, 1), (1 << 16) | (1 << 8) | (256 % 255));
    assert_eq!(at(299, 259), ((299 % 255) << 16) | ((259 % 255) << 8) | ((299 * 259) % 255));
}

#[test]
fn frame_actions() {
    let resized = FrameEvent::Resized { width: 800, height: 600 };
    assert_eq!(frame_action(resized, true, true, 1, 1), FrameAction::ResizeSurface { width: 800, height: 600 });
    assert_eq!(frame_action(resized, true, false, 1, 1), FrameAction::MissingSurface(SurfaceUse::Resize));
    assert_eq!(frame_action(resized, false, true, 1, 1), FrameAction::Nothing);
    assert_eq!(frame_action(FrameEvent::Resized { width: 0, height: 600 }, true, true, 1, 1), FrameAction::Nothing);
    let redraw = FrameEvent::RedrawRequested;
    assert_eq!(frame_action(redraw, true, true, 640, 480), FrameAction::Draw { width: 640, height: 480 });
    assert_eq!(frame_action(redraw, true, false, 640, 480), FrameAction::MissingSurface(SurfaceUse::Redraw));
    assert_eq!(frame_action(redraw, true, true, 640, 0), FrameAction::Nothing);
    assert_eq!(frame_action(redraw, false, true, 640, 480), FrameAction::Nothing);
    assert_eq!(frame_action(FrameEvent::OtherWindowEvent, true, true, 1, 1), FrameAction::Nothing);
    assert_eq!(frame_action(FrameEvent::AboutToWait, true, true, 1, 1), FrameAction::Nothing);
    assert_eq!(frame_action(FrameEvent::User(CustomEvent::REDRAW), false, false, 0, 0), FrameAction::RequestRedraw);
    assert_eq!(frame_action(FrameEvent::User(CustomEvent::CLOSE), true, true, 1, 1), FrameAction::ReportUnhandled);
    assert_eq!(frame_action(FrameEvent::Other, true, true, 1, 1), FrameAction::ReportUnhandled);
}

#[test]
fn surface_messages() {
    assert_eq!(SurfaceUse::Resize.message(), "Resized fired before Resumed or after Suspended");
    assert_eq!(SurfaceUse::Redraw.message(), "RedrawRequested fired before Resumed or after Suspended");
    assert_eq!(exit_message(), "should exit");
}

#[test]
fn entry_actions() {
    assert_eq!(entry_action(EntryEvent::CloseRequested, true, true, 1, 1), EntryAction::Exit);
    assert_eq!(entry_action(EntryEvent::EscapePressed, true, false, 1, 1), EntryAction::Exit);
    assert_eq!(entry_action(EntryEvent::EscapePressed, false, true, 1, 1), EntryAction::Nothing);
    assert_eq!(entry_action(EntryEvent::User(gtfu::window::CustomEvent::CLOSE), false, false, 0, 0), EntryAction::ExitOnRequest);
    assert_eq!(entry_action(EntryEvent::RedrawRequested, true, true, 5, 4), EntryAction::Draw { width: 5, height: 4 });
    assert_eq!(entry_action(EntryEvent::Resized { width: 5, height: 4 }, true, false, 0, 0), EntryAction::MissingSurface(SurfaceUse::Resize));
    assert_eq!(entry_action(EntryEvent::OtherWindowEvent, true, true, 1, 1), EntryAction::Nothing);
    assert_eq!(entry_action(EntryEvent::AboutToWait, true, true, 1, 1), EntryAction::Nothing);
    assert_eq!(entry_action(EntryEvent::Other, true, true, 1, 1), EntryAction::ReportUnhandled);
}

fn sample_app() -> WinitApp<u32, &'static str, fn() -> u32, fn() -> u8, fn() -> i8> {
    fn init() -> u32 {
        1
    }
    fn init_surface() -> u8 {
        2
    }
    fn handler() -> i8 {
        3
    }
    WinitAppBuilder::with_init(init as fn() -> u32, init_surface as fn() -> u8)
        .with_event_handler(handler as fn() -> i8)
}

#[test]
fn winit_app_starts_empty_and_keeps_its_closures() {
    let app = sample_app();
    assert!(app.state.is_none());
    assert!(app.surface_state.is_none());
    assert_eq!((app.init)(), 1);
    assert_eq!((app.init_surface)(), 2);
    assert_eq!((app.event)(), 3);
    let direct: WinitApp<u8, u8, u8, u8, u8> = WinitApp::new(4, 5, 6);
    assert_eq!((direct.init, direct.init_surface, direct.event), (4, 5, 6));
}

#[test]
fn winit_app_resume_suspend_and_drop() {
    let mut app = sample_app();
    app.resumed(10, "surface");
    assert_eq!(app.state, Some(10));
    assert_eq!(app.surface_state, Some("surface"));
    assert_eq!(app.suspended(), Some("surface"));
    assert_eq!(app.surface_state, None);
    assert_eq!(app.state, Some(10));
    app.resumed(11, "again");
    app.drop_window();
    assert_eq!(app.state, None);
    assert_eq!(app.surface_state, None);
    app.drop_window();
    assert_eq!(app.state, None);
}

#[test]
fn drop_window_without_state_keeps_surface() {
    let mut app = sample_app();
    app.resumed(1, "s");
    app.state = None;
    app.drop_window();
    assert_eq!(app.surface_state, Some("s"));
}

#[test]
fn winit_app_window_events() {
    let mut app = sample_app();
    assert_eq!(app.window_event(AppWindowEvent::Other), AppStep::Ignore);
    app.resumed(1, "s");
    assert_eq!(app.window_event(AppWindowEvent::Other), AppStep::Forward);
    assert_eq!(app.about_to_wait(), AppStep::Forward);
    assert_eq!(app.window_event(AppWindowEvent::Destroyed), AppStep::Exit);
    assert_eq!(app.state, Some(1));
    assert_eq!(app.window_event(AppWindowEvent::EscapePressed), AppStep::Ignore);
    assert_eq!(app.state, None);
    assert_eq!(app.surface_state, None);
    assert_eq!(app.about_to_wait(), AppStep::Ignore);
    app.resumed(2, "t");
    assert_eq!(app.window_event(AppWindowEvent::CloseRequested), AppStep::Ignore);
    assert_eq!(app.state, None);
}

#[test]
fn winit_app_user_events() {
    let mut app = sample_app();
    assert_eq!(app.user_event(CustomEvent::REDRAW), AppStep::Ignore);
    app.resumed(1, "s");
    assert_eq!(app.user_event(CustomEvent::REDRAW), AppStep::Forward);
    assert_eq!(app.state, Some(1));
    assert_eq!(app.user_event(CustomEvent::CLOSE), AppStep::Ignore);
    assert_eq!(app.state, None);
    assert_eq!(app.surface_state, None);
}

#[test]
fn test_application_events() {
    let mut app: Application<&str, u8> = Application::new();
    assert!(app.window.is_none() && app.surface.is_none());
    assert_eq!(app.window_event(TestWindowEvent::Other, false, 0, 0), TestAction::Nothing);
    app.resumed("window", 1);
    assert_eq!(app.window_event(TestWindowEvent::RedrawRequested, true, 20, 10), TestAction::Draw { width: 20, height: 10 });
    assert_eq!(app.window_event(TestWindowEvent::RedrawRequested, true, 0, 10), TestAction::Nothing);
    assert_eq!(app.window_event(TestWindowEvent::RedrawRequested, false, 20, 10), TestAction::Nothing);
    assert_eq!(app.window_event(TestWindowEvent::EscapePressed, false, 0, 0), TestAction::Nothing);
    assert_eq!(app.window, Some("window"));
    assert_eq!(app.window_event(TestWindowEvent::Destroyed, false, 0, 0), TestAction::ExitDestroyed);
    assert_eq!(app.window_event(TestWindowEvent::EscapePressed, true, 0, 0), TestAction::Exit);
    assert_eq!(app.window, None);
    assert_eq!(app.surface, None);
    app.resumed("window", 2);
    assert_eq!(app.window_event(TestWindowEvent::CloseRequested, true, 0, 0), TestAction::Nothing);
    assert_eq!(app.window, None);
    assert_eq!(app.surface, Some(2));
    app.surface = None;
    app.window = Some("w");
    assert_eq!(app.window_event(TestWindowEvent::RedrawRequested, true, 3, 3), TestAction::MissingSurface(SurfaceUse::Redraw));
}
