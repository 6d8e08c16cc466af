use xfw::input::{KeyState, PointerButton};

#[test]
fn test_pointer_button_from_u32() {
    assert_eq!(PointerButton::from(0x110), PointerButton::Left);
    assert_eq!(PointerButton::from(0x111), PointerButton::Right);
    assert_eq!(PointerButton::from(0x112), PointerButton::Middle);
    assert_eq!(PointerButton::from(0x113), PointerButton::WheelUp);
    assert_eq!(PointerButton::from(0x114), PointerButton::WheelDown);
    assert_eq!(PointerButton::from(0x999), PointerButton::Other(0x999));
}

#[test]
fn test_key_state() {
    assert!(matches!(KeyState::Pressed, KeyState::Pressed));
    assert!(matches!(KeyState::Released, KeyState::Released));
}

#[test]
fn test_pointer_button_unknown_codes() {
    assert_eq!(PointerButton::from(0), PointerButton::Other(0));
    assert_eq!(
        PointerButton::from(u32::MAX),
        PointerButton::Other(u32::MAX)
    );
    assert_eq!(PointerButton::from(0xFFFF), PointerButton::Other(0xFFFF));
}

#[test]
fn pointer_button_codes_next_to_known_ones_stay_other() {
    assert_eq!(PointerButton::from(0x10F), PointerButton::Other(0x10F));
    assert_eq!(PointerButton::from(0x115), PointerButton::Other(0x115));
}

#[test]
fn surface_tracker_maps_wayland_surfaces_and_tracks_hover() {
    let mut t = xfw::input::SurfaceTracker::new();
    assert_eq!(t.get_surface_id(7), None);
    assert_eq!(t.get_hovered_surface(), None);
    t.register_surface(1, 7);
    t.register_surface(2, 8);
    assert_eq!(t.get_surface_id(7), Some(1));
    assert_eq!(t.get_surface_id(8), Some(2));
    t.register_surface(3, 7);
    assert_eq!(t.get_surface_id(7), Some(3));
    t.pointer_enter(1);
    assert_eq!(t.get_hovered_surface(), Some(1));
    t.pointer_leave(2);
    assert_eq!(t.get_hovered_surface(), Some(1));
    t.pointer_leave(1);
    assert_eq!(t.get_hovered_surface(), None);
}

#[test]
fn test_input_manager_new() {
    let manager = xfw::input::SurfaceTracker::new();
    assert!(manager.get_hovered_surface().is_none());
}

#[test]
fn test_input_manager_surface_map() {
    let mut manager = xfw::input::SurfaceTracker::new();
    manager.register_surface(1, 100);
    manager.register_surface(2, 200);

    assert_eq!(manager.get_surface_id(100), Some(1));
    assert_eq!(manager.get_surface_id(200), Some(2));
    assert_eq!(manager.get_surface_id(300), None);
}
