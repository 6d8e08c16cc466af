use xfw::surface::{Anchor, KeyboardInteractivity, Layer, LayerSurfaceConfig, SurfaceManager};

#[test]
fn test_anchor_variants() {
    let _top = Anchor::Top;
    let _bottom = Anchor::Bottom;
    let _left = Anchor::Left;
    let _right = Anchor::Right;
    let _top_left = Anchor::TopLeft;
    let _top_right = Anchor::TopRight;
    let _bottom_left = Anchor::BottomLeft;
    let _bottom_right = Anchor::BottomRight;
    let _all = Anchor::All;
}

#[test]
fn test_layer_surface_config_default() {
    let config = LayerSurfaceConfig::default();
    assert_eq!(config.anchor, Anchor::Top);
    assert_eq!(config.layer, Layer::Top);
    assert_eq!(config.keyboard_interactivity, KeyboardInteractivity::Disabled);
    assert_eq!(config.margin, (0, 0, 0, 0));
    assert_eq!(config.namespace, "xfw");
    assert_eq!(config.width, 0);
    assert_eq!(config.height, 0);
}

#[test]
fn surface_tests_test_layer_surface_config_custom() {
    let config = LayerSurfaceConfig {
        anchor: Anchor::Bottom,
        layer: Layer::Overlay,
        keyboard_interactivity: KeyboardInteractivity::OnDemand,
        margin: (10, 20, 30, 40),
        namespace: "test".to_string(),
        width: 800,
        height: 100,
    };
    assert_eq!(config.anchor, Anchor::Bottom);
    assert_eq!(config.layer, Layer::Overlay);
    assert_eq!(
        config.keyboard_interactivity,
        KeyboardInteractivity::OnDemand
    );
    assert_eq!(config.margin, (10, 20, 30, 40));
    assert_eq!(config.namespace, "test");
    assert_eq!(config.width, 800);
    assert_eq!(config.height, 100);
}

#[test]
fn test_surface_manager_new() {
    let manager = SurfaceManager::new();
    assert_eq!(manager.surfaces().count(), 0);
}

#[test]
fn test_surface_manager_add_get_remove() {
    let mut manager = SurfaceManager::new();

    assert!(manager.get_surface(0).is_none());
    assert!(manager.get_surface_mut(0).is_none());

    let removed = manager.remove_surface(0);
    assert!(removed.is_none());
}

#[test]
fn test_layer_config_zero_size() {
    let config = LayerSurfaceConfig {
        anchor: Anchor::Top,
        layer: Layer::Top,
        keyboard_interactivity: KeyboardInteractivity::Disabled,
        margin: (0, 0, 0, 0),
        namespace: "test".to_string(),
        width: 0,
        height: 0,
    };
    assert_eq!(config.width, 0);
    assert_eq!(config.height, 0);
}

#[test]
fn test_layer_config_extreme_size() {
    let config = LayerSurfaceConfig {
        anchor: Anchor::All,
        layer: Layer::Overlay,
        keyboard_interactivity: KeyboardInteractivity::Exclusive,
        margin: (1000, 2000, 3000, 4000),
        namespace: "large".to_string(),
        width: 16384,
        height: 16384,
    };
    assert_eq!(config.width, 16384);
    assert_eq!(config.height, 16384);
    assert_eq!(config.margin, (1000, 2000, 3000, 4000));
}

#[test]
fn test_layer_config_negative_margin() {
    let config = LayerSurfaceConfig {
        anchor: Anchor::Top,
        layer: Layer::Top,
        keyboard_interactivity: KeyboardInteractivity::Disabled,
        margin: (-10, -20, -30, -40),
        namespace: "test".to_string(),
        width: 100,
        height: 50,
    };
    assert_eq!(config.margin, (-10, -20, -30, -40));
}

#[test]
fn test_layer_config_very_long_namespace() {
    let long_ns = "x".repeat(10000);
    let config = LayerSurfaceConfig {
        anchor: Anchor::Top,
        layer: Layer::Top,
        keyboard_interactivity: KeyboardInteractivity::Disabled,
        margin: (0, 0, 0, 0),
        namespace: long_ns,
        width: 100,
        height: 50,
    };
    assert_eq!(config.namespace.len(), 10000);
}

#[test]
fn test_layer_variants() {
    let _bg = Layer::Background;
    let _bottom = Layer::Bottom;
    let _top = Layer::Top;
    let _overlay = Layer::Overlay;
}

#[test]
fn test_keyboard_interactivity_variants() {
    let _none = KeyboardInteractivity::Disabled;
    let _exclusive = KeyboardInteractivity::Exclusive;
    let _ondemand = KeyboardInteractivity::OnDemand;
}

#[test]
fn test_surface_manager_many_surfaces() {
    let mut manager = SurfaceManager::new();

    for i in 0..1000 {
        assert!(manager.get_surface(i).is_none());
        assert!(manager.get_surface_mut(i).is_none());
        let _ = manager.remove_surface(i);
    }
}

#[test]
fn test_surface_manager_zero_id() {
    let mut manager = SurfaceManager::new();

    assert!(manager.get_surface(0).is_none());
    assert!(manager.get_surface_mut(0).is_none());
}

#[test]
fn layer_wire_values_follow_the_protocol() {
    assert_eq!(Layer::Background.wire_value(), 0);
    assert_eq!(Layer::Bottom.wire_value(), 1);
    assert_eq!(Layer::Top.wire_value(), 2);
    assert_eq!(Layer::Overlay.wire_value(), 3);
}

#[test]
fn anchor_bits_combine_edges() {
    assert_eq!(Anchor::Top.wire_bits(), 1);
    assert_eq!(Anchor::Bottom.wire_bits(), 2);
    assert_eq!(Anchor::Left.wire_bits(), 4);
    assert_eq!(Anchor::Right.wire_bits(), 8);
    assert_eq!(Anchor::TopLeft.wire_bits(), 1 | 4);
    assert_eq!(Anchor::TopRight.wire_bits(), 1 | 8);
    assert_eq!(Anchor::BottomLeft.wire_bits(), 2 | 4);
    assert_eq!(Anchor::BottomRight.wire_bits(), 2 | 8);
    assert_eq!(Anchor::All.wire_bits(), 15);
}

#[test]
fn interactivity_wire_values_follow_the_protocol() {
    assert_eq!(KeyboardInteractivity::Disabled.wire_value(), 0);
    assert_eq!(KeyboardInteractivity::Exclusive.wire_value(), 1);
    assert_eq!(KeyboardInteractivity::OnDemand.wire_value(), 2);
}

#[test]
fn requested_size_only_when_both_sides_set() {
    let mut config = LayerSurfaceConfig::default();
    assert_eq!(config.requested_size(), None);
    config.width = 800;
    assert_eq!(config.requested_size(), None);
    config.height = 40;
    assert_eq!(config.requested_size(), Some((800, 40)));
    config.width = 0;
    assert_eq!(config.requested_size(), None);
}

#[test]
fn layer_surface_config_clone_keeps_fields() {
    let config = LayerSurfaceConfig {
        anchor: Anchor::BottomRight,
        layer: Layer::Background,
        keyboard_interactivity: KeyboardInteractivity::OnDemand,
        margin: (1, 2, 3, 4),
        namespace: "bar".to_string(),
        width: 5,
        height: 6,
    };
    let copy = config.clone();
    assert_eq!(copy.anchor, Anchor::BottomRight);
    assert_eq!(copy.layer, Layer::Background);
    assert_eq!(copy.margin, (1, 2, 3, 4));
    assert_eq!(copy.namespace, "bar");
    assert_eq!((copy.width, copy.height), (5, 6));
}

#[test]
fn surface_ids_count_up_from_zero() {
    let mut ids = xfw::surface::SurfaceIds::new();
    assert_eq!(ids.next_id(), 0);
    assert_eq!(ids.next_id(), 1);
    assert_eq!(ids.next_id(), 2);
}
