use df_displmgr::types;
use df_displmgr::{ActivationPlan, DisplayId, DisplayRotation, Extent2D, HdrMode, HdrState, OutputState, Point2D, Rect, VideoMode};
use std::collections::HashMap;

#[test]
fn lib_test_activation_plan_default() {
    let plan = ActivationPlan::default();
    assert!(plan.position.is_none());
    assert!(plan.resolution.is_none());
    assert!(plan.rotation.is_none());
}

#[test]
fn lib_test_activation_plan_with_values() {
    let plan = ActivationPlan {
        position: Some(types::Point2D { x: 100, y: 0 }),
        resolution: Some(types::Extent2D { width: 1920, height: 1080 }),
        rotation: Some(DisplayRotation::Rotate90),
    };
    assert_eq!(plan.position, Some(types::Point2D { x: 100, y: 0 }));
    assert_eq!(plan.resolution, Some(types::Extent2D { width: 1920, height: 1080 }));
    assert_eq!(plan.rotation, Some(DisplayRotation::Rotate90));
}

#[test]
fn lib_test_display_id_comparison() {
    let id1 = DisplayId("HDMI-1".to_string());
    let id2 = DisplayId("HDMI-1".to_string());
    let id3 = DisplayId("DP-1".to_string());
    assert_eq!(id1, id2);
    assert_ne!(id1, id3);
}

#[test]
fn lib_test_display_id_hash() {
    let mut map = HashMap::new();
    map.insert(DisplayId("HDMI-1".to_string()), 1);
    map.insert(DisplayId("HDMI-1".to_string()), 2);
    assert_eq!(map.len(), 1);
}

#[test]
fn lib_test_display_id_ord() {
    let id1 = DisplayId("A".to_string());
    let id2 = DisplayId("B".to_string());
    assert!(id1 < id2);
    assert!(id2 > id1);
}

#[test]
fn lib_test_display_rotation_default() {
    let rot = DisplayRotation::default();
    assert_eq!(rot, DisplayRotation::Rotate0);
}

#[test]
fn lib_test_display_rotation_values() {
    assert_eq!(DisplayRotation::Rotate0, DisplayRotation::Rotate0);
    assert_eq!(DisplayRotation::Rotate90, DisplayRotation::Rotate90);
    assert_eq!(DisplayRotation::Rotate180, DisplayRotation::Rotate180);
    assert_eq!(DisplayRotation::Rotate270, DisplayRotation::Rotate270);
}

#[test]
fn lib_test_extent2d_default() {
    let extent = Extent2D::default();
    assert_eq!(extent.width, 0);
    assert_eq!(extent.height, 0);
}

#[test]
fn lib_test_hdr_mode_default() {
    let mode = HdrMode::default();
    assert_eq!(mode, HdrMode::Default);
}

#[test]
fn lib_test_hdr_state_default() {
    let state = HdrState::default();
    assert_eq!(state, HdrState::Disabled);
}

#[test]
fn lib_test_output_state_default() {
    let state = OutputState::default();
    assert!(!state.enabled);
    assert_eq!(state.geometry.size.width, 0);
    assert_eq!(state.geometry.size.height, 0);
}

#[test]
fn lib_test_output_state_is_landscape() {
    let landscape = OutputState {
        geometry: types::Rect {
            origin: types::Point2D { x: 0, y: 0 },
            size: types::Extent2D { width: 1920, height: 1080 },
        },
        ..Default::default()
    };
    assert!(landscape.is_landscape());

    let portrait = OutputState {
        geometry: types::Rect {
            origin: types::Point2D { x: 0, y: 0 },
            size: types::Extent2D { width: 1080, height: 1920 },
        },
        ..Default::default()
    };
    assert!(!portrait.is_landscape());
}

#[test]
fn lib_test_output_state_supported_modes() {
    let state = OutputState {
        supported_modes: vec![types::VideoMode {
            resolution: types::Extent2D { width: 1920, height: 1080 },
            refresh_rate: 60_000,
        }],
        ..Default::default()
    };
    assert_eq!(state.supported_modes.len(), 1);
    assert_eq!(state.supported_modes[0].resolution.width, 1920);
}

#[test]
fn lib_test_point2d_default() {
    let point = Point2D::default();
    assert_eq!(point.x, 0);
    assert_eq!(point.y, 0);
}

#[test]
fn lib_test_rect_default() {
    let rect = Rect::default();
    assert_eq!(rect.origin.x, 0);
    assert_eq!(rect.origin.y, 0);
    assert_eq!(rect.size.width, 0);
    assert_eq!(rect.size.height, 0);
}

#[test]
fn lib_test_video_mode_default() {
    let mode = VideoMode::default();
    assert_eq!(mode.resolution.width, 0);
    assert_eq!(mode.resolution.height, 0);
    assert_eq!(mode.refresh_rate, 0);
}
