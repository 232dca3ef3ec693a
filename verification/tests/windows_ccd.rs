use df_displmgr::backends::windows::displmgr_ccd::displmgr_ccd_commit::CcdCommitAction;
use df_displmgr::backends::windows::displmgr_ccd::displmgr_ccd_api::{
    ccd_outputs, map_path_to_output, map_win32_code, rotation_from_ccd, rotation_to_ccd, target_name,
};
use df_displmgr::backends::windows::displmgr_ccd::displmgr_ccd_sys::{
    CcdMode, CcdPath, CcdRawData, DeviceInfoRequest, DISPLAYCONFIG_PATH_ACTIVE,
    DISPLAYCONFIG_PATH_MODE_IDX_INVALID,
};
use df_displmgr::backends::windows::displmgr_ccd::CcdTopology;
use df_displmgr::types::{DisplayId, DisplayRotation, Extent2D, HdrMode, HdrState, Point2D};
use df_displmgr::{DisplayError, OutputEdit};

fn path(target: u32, active: bool, src: u32, tgt: u32) -> CcdPath {
    CcdPath {
        target_id: target,
        adapter_low: 0x1234,
        adapter_high: 0,
        flags: if active { DISPLAYCONFIG_PATH_ACTIVE } else { 0 },
        source_mode_idx: src,
        target_mode_idx: tgt,
        rotation: 1,
    }
}

fn data() -> CcdRawData {
    CcdRawData {
        paths: vec![path(100, true, 0, 1), path(200, true, 2, 3)],
        modes: vec![
            CcdMode::Source { x: 0, y: 0, width: 1920, height: 1080 },
            CcdMode::Target { vsync_numerator: 60_000, vsync_denominator: 1_001 },
            CcdMode::Source { x: 1920, y: 0, width: 2560, height: 1440 },
            CcdMode::Target { vsync_numerator: 144, vsync_denominator: 1 },
        ],
    }
}

fn topology() -> CcdTopology {
    let d = data();
    let outs = ccd_outputs(&d, vec!["Left".to_string(), "Right".to_string()]);
    CcdTopology::from_query(d, outs)
}

#[test]
fn win32_code_mapping() {
    assert!(map_win32_code(Ok(())).is_ok());
    match map_win32_code(Err("Access is denied.".to_string())) {
        Err(DisplayError::BackendError(m)) => assert_eq!(m, "Win32 Error: Access is denied."),
        _ => panic!("expected a backend error"),
    }
}

#[test]
fn target_name_prefers_friendly_name() {
    let mut name = [0u16; 64];
    for (i, u) in "DELL U2720Q".encode_utf16().enumerate() {
        name[i] = u;
    }
    assert_eq!(target_name(0, &name, 0x1234, 7), "DELL U2720Q");
    assert_eq!(target_name(5, &name, 0x1234, 7), "Display_0x00001234_7");
    let empty = [0u16; 64];
    assert_eq!(target_name(0, &empty, 0xABCDEF, 42), "Display_0x00ABCDEF_42");
}

#[test]
fn path_snapshot_values() {
    let d = data();
    let o = map_path_to_output(&d.paths[0], &d.modes, "Left".to_string());
    assert_eq!(o.identity.id, DisplayId("100".to_string()));
    assert_eq!(o.identity.connector_id.0, "0x00000064");
    assert_eq!(o.identity.adapter_id.0, "0x00001234");
    assert_eq!(o.identity.monitor_name, "Left");
    assert!(o.enabled);
    assert_eq!(o.geometry.size, Extent2D { width: 1920, height: 1080 });
    // 60000 / 1001 Hz, in millihertz, truncated
    assert_eq!(o.refresh_rate, 59_940);
    assert_eq!(o.native_resolution, Some(Extent2D { width: 1920, height: 1080 }));
    let o2 = map_path_to_output(&d.paths[1], &d.modes, "Right".to_string());
    assert_eq!(o2.refresh_rate, 144_000);
    assert_eq!(o2.geometry.origin, Point2D { x: 1920, y: 0 });
}

#[test]
fn path_without_modes_reports_empty_geometry() {
    let p = path(5, false, DISPLAYCONFIG_PATH_MODE_IDX_INVALID, DISPLAYCONFIG_PATH_MODE_IDX_INVALID);
    let o = map_path_to_output(&p, &[], "x".to_string());
    assert!(!o.enabled);
    assert_eq!(o.geometry.size, Extent2D { width: 0, height: 0 });
    assert_eq!(o.refresh_rate, 0);
}

#[test]
fn ccd_rotation_values_roundtrip() {
    for r in [DisplayRotation::Rotate0, DisplayRotation::Rotate90, DisplayRotation::Rotate180, DisplayRotation::Rotate270] {
        assert_eq!(rotation_from_ccd(rotation_to_ccd(r)), r);
    }
    assert_eq!(rotation_to_ccd(DisplayRotation::Rotate270), 4);
    assert_eq!(rotation_from_ccd(9), DisplayRotation::Rotate0);
}

#[test]
fn ccd_editor_opens_on_reported_ids() {
    let t = topology();
    for o in t.get_outputs() {
        assert!(t.edit_output(&o.identity.id).is_ok());
    }
    assert_eq!(t.edit_output(&DisplayId("200".to_string())).unwrap(), 200);
    assert!(matches!(t.edit_output(&DisplayId("300".to_string())), Err(DisplayError::NotFound(_))));
    assert!(matches!(t.edit_output(&DisplayId("DISPLAY1".to_string())), Err(DisplayError::NotFound(_))));
}

#[test]
fn ccd_edits_change_records_and_snapshots() {
    let mut t = topology();
    t.apply_edit(200, &OutputEdit::Resolution(Extent2D { width: 1280, height: 720 })).unwrap();
    assert_eq!(t.data.modes[2], CcdMode::Source { x: 1920, y: 0, width: 1280, height: 720 });
    assert_eq!(t.get_state(200).geometry.size, Extent2D { width: 1280, height: 720 });
    t.apply_edit(200, &OutputEdit::RefreshRate(75_000)).unwrap();
    assert_eq!(t.data.modes[3], CcdMode::Target { vsync_numerator: 75_000, vsync_denominator: 1_000 });
    t.apply_edit(200, &OutputEdit::Rotation(DisplayRotation::Rotate180)).unwrap();
    assert_eq!(t.data.paths[1].rotation, 3);
    assert!(t.dirty);
    t.apply_edit(100, &OutputEdit::Primary).unwrap();
    assert!(t.get_state(100).is_primary);
    assert!(!t.get_state(200).is_primary);
    assert_eq!(t.data.modes[0], CcdMode::Source { x: 0, y: 0, width: 1920, height: 1080 });
}

#[test]
fn ccd_disable_detaches_modes() {
    let mut t = topology();
    t.apply_edit(100, &OutputEdit::Enabled(false)).unwrap();
    assert_eq!(t.data.paths[0].flags & DISPLAYCONFIG_PATH_ACTIVE, 0);
    assert_eq!(t.data.paths[0].source_mode_idx, DISPLAYCONFIG_PATH_MODE_IDX_INVALID);
    assert_eq!(t.data.paths[0].target_mode_idx, DISPLAYCONFIG_PATH_MODE_IDX_INVALID);
    assert!(!t.get_state(100).enabled);
}

#[test]
fn ccd_missing_targets() {
    let mut t = topology();
    match t.apply_edit(999, &OutputEdit::Enabled(true)) {
        Err(DisplayError::NotFound(d)) => assert_eq!(d.0, "999"),
        _ => panic!("expected NotFound"),
    }
    let src = DisplayId("abc".to_string());
    match t.apply_edit(100, &OutputEdit::CloneFrom(src.clone())) {
        Err(DisplayError::NotFound(d)) => assert_eq!(d, src),
        _ => panic!("expected NotFound of the source"),
    }
    t.apply_edit(200, &OutputEdit::CloneFrom(DisplayId("100".to_string()))).unwrap();
    assert_eq!(t.data.paths[1].source_mode_idx, 0);
}

#[test]
fn ccd_staged_settings_are_keyed_by_target() {
    let mut t = topology();
    t.apply_edit(100, &OutputEdit::Scale(125)).unwrap();
    t.apply_edit(100, &OutputEdit::Scale(150)).unwrap();
    t.apply_edit(200, &OutputEdit::Hdr(HdrState::Enabled, HdrMode::Game)).unwrap();
    assert_eq!(t.staged_scales, vec![(100, 150)]);
    assert_eq!(t.staged_hdr, vec![(200, (HdrState::Enabled, HdrMode::Game))]);
    assert!(!t.dirty);
    assert!(t.needs_commit());
    let reqs = t.device_info_requests();
    assert_eq!(reqs.len(), 2);
    match reqs[0] {
        DeviceInfoRequest::Scale(p) => {
            assert_eq!(p.scale_factor_as_percent, 150);
            assert_eq!(p.header.id, 100);
            assert_eq!(p.header.info_type, -3);
            assert_eq!(p.header.size, 24);
            assert_eq!(p.header.adapter_low, 0x1234);
        },
        _ => panic!("scale first"),
    }
    match reqs[1] {
        DeviceInfoRequest::Hdr(p) => {
            assert_eq!(p.enabled, 1);
            assert_eq!(p.header.info_type, 12);
        },
        _ => panic!("hdr second"),
    }
    t.finish_commit();
    assert!(!t.needs_commit());
}

#[test]
fn ccd_geometry_validation_and_flags() {
    let mut t = topology();
    assert!(t.validate_geometry().is_ok());
    t.apply_edit(200, &OutputEdit::Position(Point2D { x: 100, y: 0 })).unwrap();
    assert!(matches!(t.validate_geometry(), Err(DisplayError::ConfigurationRejected)));
    assert_eq!(t.apply_flags(), 0x80 | 0x20 | 0x200);
    t.set_persistence(false);
    assert_eq!(t.apply_flags(), 0x80 | 0x20);
    assert_eq!(t.validate_flags(), 0x40 | 0x20);
}

#[test]
fn ccd_apply_failure_drops_staging() {
    let mut t = topology();
    t.apply_edit(100, &OutputEdit::Scale(125)).unwrap();
    t.apply_edit(100, &OutputEdit::Enabled(true)).unwrap();
    match t.apply_failed(-87) {
        DisplayError::BackendError(m) => assert_eq!(m, "SetDisplayConfig failed: -87"),
        _ => panic!("expected backend error"),
    }
    assert!(!t.dirty);
    assert!(t.staged_scales.is_empty());
}

#[test]
fn ccd_raw_data_clone_keeps_records() {
    let d = data();
    let c = d.clone();
    assert_eq!(c.paths, d.paths);
    assert_eq!(c.modes, d.modes);
}

#[test]
fn ccd_clone_copies_source_state() {
    let mut t = topology();
    t.apply_edit(100, &OutputEdit::Scale(150)).unwrap();
    t.apply_edit(100, &OutputEdit::Rotation(DisplayRotation::Rotate90)).unwrap();
    let src = t.get_state(100);
    t.apply_edit(200, &OutputEdit::CloneFrom(DisplayId("100".to_string()))).unwrap();
    let s = t.get_state(200);
    assert_eq!(s.geometry, src.geometry);
    assert_eq!(s.refresh_rate, src.refresh_rate);
    assert_eq!(s.rotation, DisplayRotation::Rotate90);
    assert_eq!(s.scale_percent, 150);
    assert_eq!(t.data.paths[1].source_mode_idx, 0);
    assert_eq!(t.data.paths[1].rotation, t.data.paths[0].rotation);
    assert_eq!(t.data.modes[3], CcdMode::Target { vsync_numerator: src.refresh_rate, vsync_denominator: 1_000 });
    assert!(t.staged_scales.contains(&(200, 150)));
    assert!(t.dirty);
    assert!(matches!(
        t.apply_edit(200, &OutputEdit::CloneFrom(DisplayId("300".to_string()))),
        Err(DisplayError::NotFound(d)) if d.0 == "300"
    ));
}

#[test]
fn ccd_commit_steps_in_order() {
    // nothing staged: done without a call
    let t = topology();
    assert!(matches!(t.commit_start(), CcdCommitAction::Finish(Ok(()))));
    // overlapping outputs: rejected without a call
    let mut t = topology();
    t.apply_edit(200, &OutputEdit::Position(Point2D { x: 100, y: 0 })).unwrap();
    assert!(matches!(t.commit_start(), CcdCommitAction::Finish(Err(DisplayError::ConfigurationRejected))));
    // changed records: check, then apply, then the device-info requests
    let mut t = topology();
    t.apply_edit(200, &OutputEdit::Resolution(Extent2D { width: 1280, height: 720 })).unwrap();
    t.apply_edit(200, &OutputEdit::Scale(150)).unwrap();
    assert!(matches!(t.commit_start(), CcdCommitAction::Validate(f) if f == 0x40 | 0x20));
    assert!(matches!(t.after_validate(7), CcdCommitAction::Finish(Err(DisplayError::ConfigurationRejected))));
    assert!(t.dirty);
    assert!(t.validate_outcome(0).is_ok());
    assert!(matches!(t.validate_outcome(-3), Err(DisplayError::ConfigurationRejected)));
    assert!(matches!(t.after_validate(0), CcdCommitAction::Apply(f) if f == 0x80 | 0x20 | 0x200));
    match t.after_apply(0) {
        CcdCommitAction::SendDeviceInfo(reqs) => {
            assert_eq!(reqs.len(), 1);
            assert!(matches!(reqs[0], DeviceInfoRequest::Scale(p) if p.header.id == 200));
        },
        _ => panic!("expected the device-info requests"),
    }
    let fresh = data();
    assert!(t.after_device_info(Some((fresh, Vec::new()))).is_ok());
    assert!(!t.dirty);
    assert!(t.staged_scales.is_empty());
    assert!(t.outputs.is_empty());
    assert!(!t.needs_commit());
    // only a scale staged: no apply, straight to the device-info requests
    let mut t = topology();
    t.apply_edit(100, &OutputEdit::Scale(125)).unwrap();
    assert!(matches!(t.after_validate(0), CcdCommitAction::SendDeviceInfo(r) if r.len() == 1));
    assert!(t.after_device_info(None).is_ok());
    assert!(t.staged_scales.is_empty());
    assert_eq!(t.outputs.len(), 2);
}

#[test]
fn ccd_refused_apply_ends_commit() {
    let mut t = topology();
    t.apply_edit(200, &OutputEdit::Rotation(DisplayRotation::Rotate90)).unwrap();
    t.apply_edit(200, &OutputEdit::Hdr(HdrState::Enabled, HdrMode::Default)).unwrap();
    match t.after_apply(31) {
        CcdCommitAction::Finish(Err(DisplayError::BackendError(m))) => assert_eq!(m, "SetDisplayConfig failed: 31"),
        _ => panic!("expected the apply failure"),
    }
    assert!(!t.dirty);
    assert!(t.staged_hdr.is_empty());
    assert!(!t.needs_commit());
}
