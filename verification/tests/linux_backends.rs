use df_displmgr::backends::linux::displmgr_drm::displmgr_drm_api::{connector_output, record_resources};
use df_displmgr::backends::linux::displmgr_drm::displmgr_drm_sys::{
    rotation_to_drm_value, DrmPropertyCache, DrmResourceIds,
};
use df_displmgr::backends::linux::displmgr_drm::DrmTopology;
use df_displmgr::backends::linux::displmgr_kde::{KdeOutputState, KdeTopology};
use df_displmgr::backends::linux::displmgr_udev::{UdevOutputState, UdevTopology};
use df_displmgr::backends::linux::displmgr_wlr::{
    rotation_to_wl_transform, wl_transform_to_rotation, HeadConfig, HeadEvent, ModeEvent, WlTransform,
    WlrInternalState, WlrTopology,
};
use df_displmgr::backends::linux::{force_all_displays, LinuxBackendVariant, LinuxTopology};
use df_displmgr::types::{
    AdapterId, ConnectorId, DisplayId, DisplayRotation, Extent2D, HdrMode, HdrState, OutputState, Point2D,
    Rect,
};
use df_displmgr::{DisplayError, OutputEdit};

fn rect(x: i32, y: i32, w: u32, h: u32) -> Rect {
    Rect { origin: Point2D { x, y }, size: Extent2D { width: w, height: h } }
}

fn kde_output(id: &str, x: i32, enabled: bool) -> KdeOutputState {
    KdeOutputState {
        id: DisplayId(id.to_string()),
        connector_id: ConnectorId(id.to_string()),
        adapter_id: AdapterId("card0".to_string()),
        geometry: rect(x, 0, 1920, 1080),
        refresh_rate: 60_000,
        scale_percent: 100,
        rotation: DisplayRotation::Rotate0,
        enabled,
        is_primary: false,
        hdr_state: HdrState::Disabled,
        hdr_mode: HdrMode::Default,
        supported_modes: Vec::new(),
    }
}

fn udev_output(id: &str, x: i32, enabled: bool) -> UdevOutputState {
    UdevOutputState {
        id: DisplayId(id.to_string()),
        connector_id: ConnectorId(id.to_string()),
        adapter_id: AdapterId("card0".to_string()),
        geometry: rect(x, 0, 1920, 1080),
        refresh_rate: 60_000,
        scale_percent: 100,
        rotation: DisplayRotation::Rotate0,
        enabled,
        is_primary: false,
        supported_modes: Vec::new(),
    }
}

fn kde_topology() -> KdeTopology {
    let mut t = KdeTopology::acquire().unwrap();
    t.outputs.push(kde_output("HDMI-1", 0, true));
    t.outputs.push(kde_output("DP-1", 1920, false));
    t
}

fn udev_topology() -> UdevTopology {
    let mut t = UdevTopology::acquire().unwrap();
    t.outputs.push(udev_output("HDMI-1", 0, true));
    t.outputs.push(udev_output("DP-1", 1920, false));
    t
}

#[test]
fn detection_priority() {
    assert_eq!(LinuxBackendVariant::from_environment(true, true, true), LinuxBackendVariant::Wlr);
    assert_eq!(LinuxBackendVariant::from_environment(false, true, true), LinuxBackendVariant::Kde);
    assert_eq!(LinuxBackendVariant::from_environment(false, false, true), LinuxBackendVariant::Udev);
    assert_eq!(LinuxBackendVariant::from_environment(false, false, false), LinuxBackendVariant::Drm);
}

#[test]
fn kde_reports_outputs_with_monitor_name() {
    let t = kde_topology();
    let outs = t.get_outputs();
    assert_eq!(outs.len(), 2);
    assert_eq!(outs[0].identity.monitor_name, "KDE Output (HDMI-1)");
    assert_eq!(outs[1].identity.id, DisplayId("DP-1".to_string()));
    assert!(!outs[1].enabled);
}

#[test]
fn kde_read_after_write_and_dirty() {
    let mut t = kde_topology();
    assert!(!t.dirty);
    let id = DisplayId("DP-1".to_string());
    t.apply_edit(&id, &OutputEdit::Rotation(DisplayRotation::Rotate90)).unwrap();
    assert_eq!(t.get_state(&id).rotation, DisplayRotation::Rotate90);
    assert!(t.dirty);
    // the other output is untouched
    assert_eq!(t.get_state(&DisplayId("HDMI-1".to_string())).rotation, DisplayRotation::Rotate0);
}

#[test]
fn kde_primary_is_exclusive() {
    let mut t = kde_topology();
    t.apply_edit(&DisplayId("HDMI-1".to_string()), &OutputEdit::Primary).unwrap();
    t.apply_edit(&DisplayId("DP-1".to_string()), &OutputEdit::Primary).unwrap();
    assert!(!t.outputs[0].is_primary);
    assert!(t.outputs[1].is_primary);
}

#[test]
fn kde_missing_output_is_not_found() {
    let mut t = kde_topology();
    let id = DisplayId("VGA-9".to_string());
    assert!(matches!(t.edit_output(&id), Err(DisplayError::NotFound(d)) if d == id));
    let r = t.apply_edit(&id, &OutputEdit::Enabled(true));
    assert!(matches!(r, Err(DisplayError::NotFound(d)) if d == id));
    assert!(!t.dirty);
}

#[test]
fn kde_clone_copies_geometry() {
    let mut t = kde_topology();
    let r = t.apply_edit(
        &DisplayId("DP-1".to_string()),
        &OutputEdit::CloneFrom(DisplayId("HDMI-1".to_string())),
    );
    assert!(r.is_ok());
    assert_eq!(t.outputs[1].geometry, rect(0, 0, 1920, 1080));
}

#[test]
fn kde_commit_validates_and_cleans() {
    let mut t = kde_topology();
    // enabling DP-1 at x=1000 makes it overlap HDMI-1
    t.apply_edit(&DisplayId("DP-1".to_string()), &OutputEdit::Enabled(true)).unwrap();
    t.apply_edit(&DisplayId("DP-1".to_string()), &OutputEdit::Position(Point2D { x: 1000, y: 0 })).unwrap();
    assert!(matches!(t.commit(), Err(DisplayError::ConfigurationRejected)));
    assert!(t.dirty);
    t.apply_edit(&DisplayId("DP-1".to_string()), &OutputEdit::Position(Point2D { x: 1920, y: 0 })).unwrap();
    assert!(t.commit().is_ok());
    assert!(!t.dirty);
    // a clean commit is a no-op
    assert!(t.commit().is_ok());
}

#[test]
fn udev_refuses_hdr() {
    let mut t = udev_topology();
    let r = t.apply_edit(&DisplayId("HDMI-1".to_string()), &OutputEdit::Hdr(HdrState::Enabled, HdrMode::Game));
    match r {
        Err(DisplayError::UnsupportedFeature(s)) => assert_eq!(
            s,
            "HDR control requires a Wayland compositor or KDE Plasma environment"
        ),
        _ => panic!("expected UnsupportedFeature"),
    }
    assert!(!t.dirty);
}

#[test]
fn udev_commit_needs_privileges() {
    let mut t = udev_topology();
    assert!(t.commit().is_ok());
    t.apply_edit(&DisplayId("HDMI-1".to_string()), &OutputEdit::RefreshRate(75_000)).unwrap();
    assert_eq!(t.get_state(&DisplayId("HDMI-1".to_string())).refresh_rate, 75_000);
    assert!(matches!(t.commit(), Err(DisplayError::PermissionDenied)));
}

#[test]
fn udev_get_state_of_unknown_is_default() {
    let t = udev_topology();
    let s = t.get_state(&DisplayId("none".to_string()));
    assert_eq!(s.identity.monitor_name, "Unknown Display");
    assert_eq!(s.scale_percent, 100);
}

#[test]
fn drm_connector_output_values() {
    let o = connector_output("HDMI-A", 3, Some((2560, 1440)));
    assert_eq!(o.identity.id, DisplayId("DRM-KMS-HDMI-A-3".to_string()));
    assert_eq!(o.identity.monitor_name, "DRM-KMS-HDMI-A-3");
    assert_eq!(o.identity.connector_id, ConnectorId("DRM-Port-3".to_string()));
    assert_eq!(o.identity.adapter_id, AdapterId("/dev/dri/card0".to_string()));
    assert_eq!(o.geometry.size, Extent2D { width: 2560, height: 1440 });
    assert_eq!(o.refresh_rate, 60_000);
    let d = connector_output("DP", 1, None);
    assert_eq!(d.geometry.size, Extent2D { width: 1920, height: 1080 });
}

#[test]
fn drm_rotation_values() {
    assert_eq!(rotation_to_drm_value(DisplayRotation::Rotate0), 1);
    assert_eq!(rotation_to_drm_value(DisplayRotation::Rotate90), 2);
    assert_eq!(rotation_to_drm_value(DisplayRotation::Rotate180), 4);
    assert_eq!(rotation_to_drm_value(DisplayRotation::Rotate270), 8);
}

fn drm_topology() -> DrmTopology {
    let out = connector_output("HDMI-A", 1, Some((1920, 1080)));
    let id = out.identity.id.clone();
    let mut map = Vec::new();
    record_resources(&mut map, id, DrmResourceIds { connector_id: 31, crtc_id: 41, primary_plane_id: 51 });
    let mut cache = DrmPropertyCache::new();
    cache.insert(31, "rotation".to_string(), 7);
    cache.insert(31, "CRTC_X".to_string(), 8);
    DrmTopology::from_probe(vec![out], map, cache)
}

#[test]
fn drm_rotation_staged_in_atomic_request() {
    let mut t = drm_topology();
    assert!(!t.needs_commit());
    let id = DisplayId("DRM-KMS-HDMI-A-1".to_string());
    assert_eq!(t.find_prop_id(31, "rotation"), Some(7));
    assert_eq!(t.find_prop_id(31, "missing"), None);
    t.apply_edit(&id, &OutputEdit::Rotation(DisplayRotation::Rotate90)).unwrap();
    assert_eq!(t.get_state(&id).rotation, DisplayRotation::Rotate90);
    assert!(t.needs_commit());
    // the plane 51 got property 7 set to the 90-degree bit
    let dbg = format!("{:?}", t.atomic_req);
    assert!(dbg.contains("51"), "{}", dbg);
    assert!(dbg.contains("values: [2]"), "{}", dbg);
    t.finish_commit();
    assert!(!t.needs_commit());
}

#[test]
fn drm_unchanged_edit_stages_nothing() {
    let mut t = drm_topology();
    let id = DisplayId("DRM-KMS-HDMI-A-1".to_string());
    t.apply_edit(&id, &OutputEdit::Rotation(DisplayRotation::Rotate0)).unwrap();
    assert!(!t.needs_commit());
    assert!(matches!(
        t.apply_edit(&DisplayId("x".to_string()), &OutputEdit::Enabled(false)),
        Err(DisplayError::NotFound(_))
    ));
}

#[test]
fn wlr_head_events_build_state() {
    let mut s = WlrInternalState::new();
    let i = s.apply_head_event(10, HeadEvent::Name("eDP-1".to_string()));
    assert_eq!(i, 0);
    s.apply_head_event(10, HeadEvent::Position(100, 50));
    s.apply_head_event(10, HeadEvent::Transform(WlTransform::Rotate90));
    s.apply_head_event(10, HeadEvent::Enabled(1));
    s.apply_head_event(10, HeadEvent::Scale(150));
    let j = s.apply_head_event(11, HeadEvent::Name("HDMI-A-1".to_string()));
    assert_eq!(j, 1);
    s.apply_mode_event(0, ModeEvent::Size(1920, 1080));
    s.apply_mode_event(0, ModeEvent::Refresh(60_000));
    s.apply_mode_event(0, ModeEvent::Size(1920, 1080));
    assert_eq!(s.heads, vec![10, 11]);
    assert_eq!(s.states[0].identity.id, DisplayId("eDP-1".to_string()));
    assert_eq!(s.states[0].geometry.origin, Point2D { x: 100, y: 50 });
    assert_eq!(s.states[0].rotation, DisplayRotation::Rotate90);
    assert!(s.states[0].enabled);
    assert_eq!(s.states[0].scale_percent, 150);
    assert_eq!(s.modes[0].len(), 1);
    assert_eq!(s.modes[0][0].refresh_rate, 60_000);
    assert!(!s.states[1].enabled);
}

#[test]
fn wlr_transform_roundtrip() {
    for r in [DisplayRotation::Rotate0, DisplayRotation::Rotate90, DisplayRotation::Rotate180, DisplayRotation::Rotate270] {
        assert_eq!(wl_transform_to_rotation(rotation_to_wl_transform(r)), r);
    }
    // flipped transforms are not rotations and read as none
    assert_eq!(wl_transform_to_rotation(WlTransform::Flipped90), DisplayRotation::Rotate0);
}

fn wlr_topology() -> WlrTopology {
    let mut s = WlrInternalState::new();
    s.apply_head_event(1, HeadEvent::Name("A".to_string()));
    s.apply_head_event(1, HeadEvent::Enabled(1));
    s.apply_head_event(2, HeadEvent::Name("B".to_string()));
    WlrTopology::from_state(s)
}

#[test]
fn wlr_commit_plan_follows_state() {
    let mut t = wlr_topology();
    t.apply_edit(&DisplayId("A".to_string()), &OutputEdit::Position(Point2D { x: 5, y: 6 })).unwrap();
    let plan = t.commit_plan().unwrap();
    assert_eq!(
        plan,
        vec![
            HeadConfig::Enable { head: 0, x: 5, y: 6, scale_percent: 100, transform: WlTransform::Normal },
            HeadConfig::Disable { head: 1 },
        ]
    );
    t.apply_edit(&DisplayId("B".to_string()), &OutputEdit::Hdr(HdrState::Enabled, HdrMode::Default)).unwrap();
    match t.commit_plan() {
        Err(DisplayError::UnsupportedFeature(m)) => assert_eq!(m, "HDR is not supported in this simplified WLR path"),
        _ => panic!("expected refusal"),
    }
}

#[test]
fn wlr_wake_then_restore() {
    let mut t = wlr_topology();
    let woken = t.snapshot_wake_inactive_outputs(None);
    assert_eq!(woken, vec![DisplayId("B".to_string())]);
    assert!(t.state.states[1].enabled);
    t.restore_inactive_outputs(&woken);
    assert!(!t.state.states[1].enabled);
    assert!(t.state.states[0].enabled);
}

#[test]
fn wake_keeps_requested_output() {
    let mut t = wlr_topology();
    let keep = DisplayId("B".to_string());
    let woken = t.snapshot_wake_inactive_outputs(Some(&keep));
    assert!(woken.is_empty());
    assert!(t.state.states[1].enabled);
    t.restore_inactive_outputs(&woken);
    assert!(t.state.states[1].enabled);
    assert!(t.state.states[0].enabled);
}

#[test]
fn wlr_validate_rejects_overlapping_heads() {
    let mut t = wlr_topology();
    for h in ["A", "B"] {
        t.apply_edit(&DisplayId(h.to_string()), &OutputEdit::Resolution(Extent2D { width: 1920, height: 1080 })).unwrap();
    }
    assert!(t.validate().is_ok());
    // B is disabled: sharing A's place is no overlap yet
    t.apply_edit(&DisplayId("B".to_string()), &OutputEdit::Enabled(true)).unwrap();
    assert!(matches!(t.validate(), Err(DisplayError::ConfigurationRejected)));
    t.apply_edit(&DisplayId("B".to_string()), &OutputEdit::Position(Point2D { x: 1920, y: 0 })).unwrap();
    assert!(t.validate().is_ok());
}

#[test]
fn wlr_primary_is_exclusive() {
    let mut t = wlr_topology();
    t.apply_edit(&DisplayId("A".to_string()), &OutputEdit::Primary).unwrap();
    assert!(t.state.states[0].is_primary);
    t.apply_edit(&DisplayId("B".to_string()), &OutputEdit::Primary).unwrap();
    assert!(t.state.states[1].is_primary);
    assert!(!t.state.states[0].is_primary);
}

#[test]
fn drm_ids_of_two_ports_of_one_type_differ() {
    let a = connector_output("HDMI-A", 1, None);
    let b = connector_output("HDMI-A", 2, None);
    assert_eq!(a.identity.id, DisplayId("DRM-KMS-HDMI-A-1".to_string()));
    assert_eq!(b.identity.id, DisplayId("DRM-KMS-HDMI-A-2".to_string()));
    assert_ne!(a.identity.id, b.identity.id);
}

#[test]
fn drm_wake_enables_kept_output_and_restore_leaves_it_on() {
    let mut t = drm_topology();
    let id = DisplayId("DRM-KMS-HDMI-A-1".to_string());
    t.apply_edit(&id, &OutputEdit::Enabled(false)).unwrap();
    let woken = t.snapshot_wake_inactive_outputs(Some(&id));
    assert!(woken.is_empty());
    assert!(t.get_state(&id).enabled);
    t.restore_inactive_outputs(&woken);
    assert!(t.get_state(&id).enabled);
    let mut t = drm_topology();
    t.apply_edit(&id, &OutputEdit::Enabled(false)).unwrap();
    let woken = t.snapshot_wake_inactive_outputs(None);
    assert_eq!(woken, vec![id.clone()]);
    t.restore_inactive_outputs(&woken);
    assert!(!t.get_state(&id).enabled);
}

#[test]
fn drm_validate_geometry_checks_overlap() {
    let a = connector_output("HDMI-A", 1, None);
    let b = connector_output("HDMI-A", 2, None);
    let t = DrmTopology::from_probe(vec![a, b], Vec::new(), DrmPropertyCache::new());
    assert!(matches!(t.validate_geometry(), Err(DisplayError::ConfigurationRejected)));
    let t = drm_topology();
    assert!(t.validate_geometry().is_ok());
}

#[test]
fn linux_topology_dispatches() {
    let mut t = LinuxTopology::Kde(kde_topology());
    assert_eq!(t.variant(), LinuxBackendVariant::Kde);
    assert_eq!(t.get_outputs().len(), 2);
    t.apply_edit(&DisplayId("HDMI-1".to_string()), &OutputEdit::Scale(125)).unwrap();
    assert_eq!(t.get_state(&DisplayId("HDMI-1".to_string())).scale_percent, 125);
    t.set_persistence(true);
    match &t {
        LinuxTopology::Kde(k) => assert!(k.persistence_enabled),
        _ => panic!("backend changed"),
    }
    let u = LinuxTopology::Udev(udev_topology());
    assert_eq!(u.variant(), LinuxBackendVariant::Udev);
    assert!(u.edit_output(&DisplayId("nope".to_string())).is_err());
}

#[test]
fn force_all_enables_every_output() {
    let mut t = LinuxTopology::Udev(udev_topology());
    assert!(force_all_displays(&mut t).is_ok());
    assert!(t.get_outputs().iter().all(|o| o.enabled));
    let mut w = LinuxTopology::Wlr(wlr_topology());
    assert!(force_all_displays(&mut w).is_ok());
    assert!(w.get_outputs().iter().all(|o: &OutputState| o.enabled));
}
