use df_displmgr::backends::windows::displmgr_ccd::displmgr_ccd_sys::{CcdMode, CcdPath, DISPLAYCONFIG_PATH_ACTIVE};
use df_displmgr::backends::windows::displmgr_gdi::displmgr_gdi_api::{
    deactivate_failure, deactivate_target, force_all_targets, gdi_output, monitor_not_found, reposition_target,
    scanned_device, with_resolution, GdiCommitStep, GdiStage,
};
use df_displmgr::backends::windows::displmgr_gdi::displmgr_gdi_sys::{
    create_empty_devmode, dmdo_to_rotation, rotation_to_dmdo, GdiDevMode, DM_DISPLAYORIENTATION, DM_PELSHEIGHT,
    DM_PELSWIDTH, DM_POSITION,
};
use df_displmgr::backends::windows::displmgr_gdi::{DisplayRestorer, GdiTopology};
use df_displmgr::types::{DisplayId, DisplayRotation, Point2D};
use df_displmgr::{DisplayError, OutputEdit};

fn wide(s: &str) -> Vec<u16> {
    let mut v: Vec<u16> = s.encode_utf16().collect();
    v.push(0);
    v
}

fn mode(x: i32, w: u32) -> GdiDevMode {
    GdiDevMode {
        size: 220,
        fields: 0x1,
        pels_width: w,
        pels_height: 1080,
        position_x: x,
        position_y: 0,
        orientation: 0,
        display_frequency: 60,
    }
}

fn topology() -> GdiTopology {
    let a = gdi_output(&wide("\\\\.\\DISPLAY1"), &wide("PCI\\1"), &wide("Panel A"), 0x5, &mode(0, 1920));
    let b = gdi_output(&wide("\\\\.\\DISPLAY2"), &wide("PCI\\2"), &wide("Panel B"), 0x0, &mode(1920, 1280));
    GdiTopology::from_query(
        vec![("\\\\.\\DISPLAY1".to_string(), mode(0, 1920)), ("\\\\.\\DISPLAY2".to_string(), mode(1920, 1280))],
        vec![a, b],
    )
}

fn d1() -> DisplayId {
    DisplayId("\\\\.\\DISPLAY1".to_string())
}

fn d2() -> DisplayId {
    DisplayId("\\\\.\\DISPLAY2".to_string())
}

#[test]
fn device_output_values() {
    let mut m = mode(-1280, 1280);
    m.orientation = 1;
    m.display_frequency = 144;
    let o = gdi_output(&wide("\\\\.\\DISPLAY3"), &wide("PCI\\3"), &wide("Side"), 0x4, &m);
    assert_eq!(o.identity.id, DisplayId("\\\\.\\DISPLAY3".to_string()));
    assert_eq!(o.identity.connector_id.0, "\\\\.\\DISPLAY3");
    assert_eq!(o.identity.adapter_id.0, "PCI\\3");
    assert_eq!(o.identity.monitor_name, "Side");
    assert_eq!(o.geometry.origin, Point2D { x: -1280, y: 0 });
    assert_eq!(o.refresh_rate, 144_000);
    assert_eq!(o.rotation, DisplayRotation::Rotate90);
    assert!(!o.enabled);
    assert!(o.is_primary);
}

#[test]
fn orientation_values() {
    assert_eq!(rotation_to_dmdo(DisplayRotation::Rotate0), 0);
    assert_eq!(rotation_to_dmdo(DisplayRotation::Rotate270), 3);
    assert_eq!(dmdo_to_rotation(2), DisplayRotation::Rotate180);
    assert_eq!(dmdo_to_rotation(7), DisplayRotation::Rotate0);
}

#[test]
fn query_keeps_one_entry_per_device() {
    let a = gdi_output(&wide("X"), &wide(""), &wide("first"), 1, &mode(0, 800));
    let b = gdi_output(&wide("X"), &wide(""), &wide("second"), 1, &mode(0, 1024));
    let t = GdiTopology::from_query(vec![("X".to_string(), mode(0, 800)), ("X".to_string(), mode(0, 1024))], vec![a, b]);
    assert_eq!(t.outputs.len(), 1);
    assert_eq!(t.outputs[0].identity.monitor_name, "second");
    assert_eq!(t.saved_modes.len(), 1);
    assert_eq!(t.saved_modes[0].1.pels_width, 1024);
    assert!(t.persistence_enabled);
    assert!(t.target_primary_id.is_none());
}

#[test]
fn gdi_edits() {
    let mut t = topology();
    t.apply_edit(&d2(), &OutputEdit::Position(Point2D { x: 2000, y: 10 })).unwrap();
    assert_eq!(t.get_state(&d2()).geometry.origin, Point2D { x: 2000, y: 10 });
    t.apply_edit(&d2(), &OutputEdit::Primary).unwrap();
    assert_eq!(t.target_primary_id, Some(d2().0));
    t.apply_edit(&d2(), &OutputEdit::CloneFrom(d1())).unwrap();
    assert_eq!(t.get_state(&d2()).geometry, t.get_state(&d1()).geometry);
    let missing = DisplayId("\\\\.\\DISPLAY9".to_string());
    assert!(matches!(t.edit_output(&missing), Err(DisplayError::NotFound(d)) if d == missing));
    assert!(matches!(t.apply_edit(&missing, &OutputEdit::Enabled(true)), Err(DisplayError::NotFound(_))));
    assert!(t.validate().is_ok());
}

#[test]
fn gdi_clone_copies_scale_and_validate_sees_overlap() {
    let mut t = topology();
    t.apply_edit(&d1(), &OutputEdit::Scale(150)).unwrap();
    t.apply_edit(&d1(), &OutputEdit::RefreshRate(75_000)).unwrap();
    t.apply_edit(&d2(), &OutputEdit::CloneFrom(d1())).unwrap();
    let s = t.get_state(&d2());
    assert_eq!(s.scale_percent, 150);
    assert_eq!(s.refresh_rate, 75_000);
    assert_eq!(s.geometry, t.get_state(&d1()).geometry);
    // the clone is disabled, so nothing overlaps yet
    assert!(t.validate().is_ok());
    t.apply_edit(&d2(), &OutputEdit::Enabled(true)).unwrap();
    assert!(matches!(t.validate(), Err(DisplayError::ConfigurationRejected)));
}

#[test]
fn commit_plan_orders_primary_first_then_flush() {
    let mut t = topology();
    t.apply_edit(&d2(), &OutputEdit::Primary).unwrap();
    t.apply_edit(&d2(), &OutputEdit::Enabled(true)).unwrap();
    let plan = t.commit_plan();
    assert_eq!(plan.len(), 3);
    match &plan[0] {
        GdiCommitStep::Change { device, mode, flags, stage } => {
            assert_eq!(device, &d2().0);
            assert_eq!(*stage, GdiStage::Primary);
            assert_eq!(*flags, 0x1000_0011);
            assert_eq!((mode.position_x, mode.position_y), (0, 0));
            assert_eq!(mode.pels_width, 1280);
            assert_eq!(mode.fields, 0x1 | DM_PELSWIDTH | DM_PELSHEIGHT | DM_POSITION | DM_DISPLAYORIENTATION);
        },
        _ => panic!("primary first"),
    }
    match &plan[1] {
        GdiCommitStep::Change { device, mode, flags, stage } => {
            assert_eq!(device, &d1().0);
            assert_eq!(*stage, GdiStage::Secondary);
            assert_eq!(*flags, 0x1000_0001);
            assert_eq!(mode.pels_width, 1920);
        },
        _ => panic!("secondary next"),
    }
    assert!(matches!(plan[2], GdiCommitStep::Flush));
    t.finish_commit();
    assert!(t.target_primary_id.is_none());
}

#[test]
fn commit_plan_switches_off_disabled_and_stops_on_missing_record() {
    let mut t = topology();
    t.set_persistence(false);
    let plan = t.commit_plan();
    match &plan[1] {
        GdiCommitStep::Change { mode, flags, .. } => {
            assert_eq!((mode.pels_width, mode.pels_height), (0, 0));
            assert_eq!(*flags, 0x1000_0000);
        },
        _ => panic!("disabled device is switched off"),
    }
    t.saved_modes.pop();
    let plan = t.commit_plan();
    assert_eq!(plan.len(), 2);
    assert!(matches!(&plan[1], GdiCommitStep::MissingMode(d) if *d == d2()));
}

#[test]
fn stage_failures_text() {
    match GdiStage::Primary.failure() {
        DisplayError::BackendError(m) => assert_eq!(m, "Primary staging failed"),
        _ => panic!(),
    }
    match GdiStage::Secondary.failure() {
        DisplayError::BackendError(m) => assert_eq!(m, "Secondary staging failed"),
        _ => panic!(),
    }
}

#[test]
fn gdi_wake_then_restore_keeps_target_on() {
    let mut t = topology();
    let woken = t.snapshot_wake_inactive_outputs(Some(&d2()));
    assert!(woken.is_empty());
    assert!(t.outputs.iter().all(|o| o.enabled));
    t.restore_inactive_outputs(&woken);
    assert!(t.get_state(&d2()).enabled);
    let mut t = topology();
    let woken = t.snapshot_wake_inactive_outputs(None);
    assert_eq!(woken, vec![d2().0]);
    t.restore_inactive_outputs(&woken);
    assert!(!t.get_state(&d2()).enabled);
    assert!(t.get_state(&d1()).enabled);
}

#[test]
fn restorer_switches_inactive_devices_off() {
    let r = DisplayRestorer { snapshot: vec![(wide("A"), true, mode(0, 1920)), (wide("B"), false, mode(10, 800))] };
    let changes = r.restore_changes();
    assert_eq!(changes.len(), 2);
    assert_eq!(changes[0].0, wide("A"));
    assert_eq!(changes[0].1, mode(0, 1920));
    assert_eq!(changes[1].1.pels_width, 0);
    assert_eq!(changes[1].1.pels_height, 0);
    assert_eq!(changes[1].1.fields, DM_PELSWIDTH | DM_PELSHEIGHT | DM_POSITION);
    assert_eq!(changes[1].1.position_x, 10);
    assert_eq!(changes[0].2, 0x1000_0001);
}

#[test]
fn force_all_picks_inactive_devices() {
    let devices = vec![
        scanned_device(&wide("\\\\.\\DISPLAY1"), &wide("A"), 0x5),
        scanned_device(&wide("\\\\.\\DISPLAY2"), &wide("B"), 0x0),
    ];
    assert!(devices[0].is_active && devices[0].is_primary);
    assert_eq!(force_all_targets(&devices), vec!["\\\\.\\DISPLAY2".to_string()]);
    let m = with_resolution(create_empty_devmode(), 1920, 1080);
    assert_eq!((m.pels_width, m.pels_height, m.fields, m.size), (1920, 1080, DM_PELSWIDTH | DM_PELSHEIGHT, 220));
}

fn ccd_path(target: u32, active: bool, src: u32) -> CcdPath {
    CcdPath {
        target_id: target,
        adapter_low: 1,
        adapter_high: 0,
        flags: if active { DISPLAYCONFIG_PATH_ACTIVE } else { 0 },
        source_mode_idx: src,
        target_mode_idx: 0xffff_ffff,
        rotation: 1,
    }
}

#[test]
fn reposition_moves_target_right_of_others() {
    let paths = vec![ccd_path(1, true, 0), ccd_path(2, true, 1), ccd_path(3, true, 2)];
    let mut modes = vec![
        CcdMode::Source { x: 0, y: 0, width: 1920, height: 1080 },
        CcdMode::Source { x: 1920, y: 0, width: 2560, height: 1440 },
        CcdMode::Source { x: 0, y: 0, width: 1280, height: 720 },
    ];
    assert!(reposition_target(&paths, &mut modes, 3, 1600, 900));
    assert_eq!(modes[2], CcdMode::Source { x: 4480, y: 0, width: 1600, height: 900 });
    assert!(!reposition_target(&paths, &mut modes, 9, 1920, 1080));
    // alone: placed at the given width
    let lone = vec![ccd_path(5, true, 0)];
    let mut m2 = vec![CcdMode::Source { x: 7, y: 7, width: 800, height: 600 }];
    assert!(reposition_target(&lone, &mut m2, 5, 1920, 1080));
    assert_eq!(m2[0], CcdMode::Source { x: 1920, y: 0, width: 1920, height: 1080 });
}

#[test]
fn deactivation() {
    let mut paths = vec![ccd_path(1, true, 0), ccd_path(2, true, 1)];
    deactivate_target(&mut paths, 2).unwrap();
    assert_eq!(paths[1].flags & DISPLAYCONFIG_PATH_ACTIVE, 0);
    assert_eq!(paths[1].source_mode_idx, 0xffff_ffff);
    assert_eq!(paths[0].flags, DISPLAYCONFIG_PATH_ACTIVE);
    match deactivate_target(&mut paths, 77) {
        Err(DisplayError::NotFound(d)) => assert_eq!(d.0, "77"),
        _ => panic!(),
    }
    match deactivate_failure(2, -1) {
        DisplayError::BackendError(m) => assert_eq!(m, "SetDisplayConfig deactivate failed for target 2: 0xFFFFFFFF"),
        _ => panic!(),
    }
    match monitor_not_found("DTV") {
        DisplayError::BackendError(m) => assert_eq!(m, "Monitor 'DTV' not found in CCD paths"),
        _ => panic!(),
    }
}
