use xfw::file_watch::{file_events, FileEvent, IN_ACCESS, IN_CREATE, IN_DELETE, IN_MODIFY};
use xfw::render::Renderer;
use xfw::{PlatformError, WaylandConnection};

#[test]
fn platform_error_messages() {
    assert_eq!(
        PlatformError::WaylandConnection("x".to_string()).message(),
        "Wayland connection failed: x"
    );
    assert_eq!(PlatformError::EventLoop("y".to_string()).message(), "Event loop error: y");
    assert_eq!(PlatformError::FdError("z".to_string()).message(), "File descriptor error: z");
}

#[test]
fn display_defaults_to_wayland_0_and_headless_without_connection() {
    let conn = WaylandConnection::from_environment(None, None);
    assert_eq!(conn.display, "wayland-0");
    assert!(conn.socket_name.is_none());
    assert!(!conn.is_connected());
    assert!(conn.is_headless());
    let conn = WaylandConnection::from_environment(Some("wayland-7".to_string()), None);
    assert_eq!(conn.display, "wayland-7");
}

#[test]
fn file_event_precedence() {
    assert_eq!(FileEvent::from_mask(IN_MODIFY), FileEvent::Modified);
    assert_eq!(FileEvent::from_mask(IN_MODIFY | IN_CREATE), FileEvent::Modified);
    assert_eq!(FileEvent::from_mask(IN_CREATE | IN_DELETE), FileEvent::Created);
    assert_eq!(FileEvent::from_mask(IN_DELETE | IN_ACCESS), FileEvent::Deleted);
    assert_eq!(FileEvent::from_mask(IN_ACCESS), FileEvent::Access);
    assert_eq!(FileEvent::from_mask(0x8), FileEvent::Other);
    assert_eq!(FileEvent::from_mask(0), FileEvent::Other);
}

#[test]
fn file_events_keep_order_and_default_name() {
    let out = file_events(vec![(Some("a.lua".to_string()), IN_MODIFY), (None, IN_DELETE)]);
    assert_eq!(out.len(), 2);
    assert_eq!(out[0].0, "a.lua");
    assert_eq!(out[0].1, FileEvent::Modified);
    assert_eq!(out[1].0, "");
    assert_eq!(out[1].1, FileEvent::Deleted);
}

#[test]
fn renderer_prepares_without_error() {
    let mut renderer = Renderer::new(640, 480);
    assert!(renderer.prepare().is_ok());
    let mut renderer = Renderer::with_default_size();
    assert!(renderer.prepare().is_ok());
    let mut renderer = Renderer::default();
    assert!(renderer.prepare().is_ok());
}
