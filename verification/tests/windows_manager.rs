use df_displmgr::backends::windows::displmgr_ccd::displmgr_ccd_api::ccd_outputs;
use df_displmgr::backends::windows::displmgr_ccd::displmgr_ccd_sys::{
    CcdMode, CcdPath, CcdRawData, DeviceInfoRequest, DISPLAYCONFIG_PATH_ACTIVE,
};
use df_displmgr::backends::windows::displmgr_ccd::displmgr_ccd_commit::CcdCommitAction;
use df_displmgr::backends::windows::displmgr_ccd::CcdTopology;
use df_displmgr::backends::windows::displmgr_gdi::displmgr_gdi_api::gdi_output;
use df_displmgr::backends::windows::displmgr_gdi::displmgr_gdi_sys::GdiDevMode;
use df_displmgr::backends::windows::displmgr_gdi::GdiTopology;
use df_displmgr::backends::windows::{
    enrich_gdi_topology, gdi_ccd_sync_requests, EdidDump, MonitorConfig, OsLayerData, WinCommitRoute,
    WinDisplayManager,
};
use df_displmgr::types::{DisplayId, Extent2D, HdrMode, HdrState, Point2D};
use df_displmgr::{DisplayError, OutputEdit};

fn wide(s: &str) -> Vec<u16> {
    let mut v: Vec<u16> = s.encode_utf16().collect();
    v.push(0);
    v
}

fn mode(x: i32, w: u32) -> GdiDevMode {
    GdiDevMode {
        size: 220,
        fields: 0,
        pels_width: w,
        pels_height: 1080,
        position_x: x,
        position_y: 0,
        orientation: 0,
        display_frequency: 60,
    }
}

fn gdi() -> GdiTopology {
    let a = gdi_output(&wide("\\\\.\\DISPLAY1"), &wide(""), &wide("A"), 0x1, &mode(0, 1920));
    let b = gdi_output(&wide("\\\\.\\DISPLAY2"), &wide(""), &wide("B"), 0x1, &mode(1920, 1280));
    GdiTopology::from_query(
        vec![("\\\\.\\DISPLAY1".to_string(), mode(0, 1920)), ("\\\\.\\DISPLAY2".to_string(), mode(1920, 1280))],
        vec![a, b],
    )
}

fn map() -> EdidDump {
    EdidDump {
        monitors: vec![
            MonitorConfig {
                friendly_name: "B".to_string(),
                os_layer: OsLayerData { target_id: 200, gdi_name: "\\\\.\\DISPLAY2".to_string() },
            },
            MonitorConfig {
                friendly_name: "Z".to_string(),
                os_layer: OsLayerData { target_id: 999, gdi_name: "\\\\.\\DISPLAY7".to_string() },
            },
        ],
    }
}

fn ccd() -> CcdTopology {
    let d = CcdRawData {
        paths: vec![
            CcdPath {
                target_id: 200,
                adapter_low: 9,
                adapter_high: 0,
                flags: DISPLAYCONFIG_PATH_ACTIVE,
                source_mode_idx: 0,
                target_mode_idx: 0xffff_ffff,
                rotation: 1,
            },
        ],
        modes: vec![CcdMode::Source { x: 0, y: 0, width: 2560, height: 1440 }],
    };
    let outs = ccd_outputs(&d, vec!["B".to_string()]);
    CcdTopology::from_query(d, outs)
}

#[test]
fn enrichment_sets_hardware_ids() {
    let mut g = gdi();
    enrich_gdi_topology(&mut g, &Some(map()));
    assert_eq!(g.outputs[0].identity.hardware_uuid, None);
    assert_eq!(g.outputs[1].identity.hardware_uuid, Some("200".to_string()));
    let mut h = gdi();
    enrich_gdi_topology(&mut h, &None);
    assert!(h.outputs.iter().all(|o| o.identity.hardware_uuid.is_none()));
}

#[test]
fn gdi_only_manager_routes_to_gdi() {
    let mut m = WinDisplayManager::from_backends(None, gdi(), Some(map()));
    assert!(!m.uses_ccd());
    assert_eq!(m.commit_route(), WinCommitRoute::Gdi);
    assert_eq!(m.get_outputs().len(), 2);
    assert_eq!(m.hardware_map().unwrap().monitors.len(), 2);
    assert_eq!(m.auto_position_right_of(), Point2D { x: 3200, y: 0 });
    assert!(matches!(m.validate_start(), CcdCommitAction::Finish(Ok(()))));
    let id = DisplayId("\\\\.\\DISPLAY2".to_string());
    m.apply_edit(&id, &OutputEdit::Scale(150)).unwrap();
    assert_eq!(m.gdi.outputs[1].scale_percent, 150);
}

#[test]
fn ccd_manager_routes_to_ccd() {
    let mut m = WinDisplayManager::from_backends(Some(ccd()), gdi(), None);
    assert!(m.uses_ccd());
    assert_eq!(m.commit_route(), WinCommitRoute::Ccd);
    assert_eq!(m.get_outputs()[0].identity.id, DisplayId("200".to_string()));
    let r = m.apply_edit(&DisplayId("\\\\.\\DISPLAY1".to_string()), &OutputEdit::Enabled(true));
    assert!(matches!(r, Err(DisplayError::NotFound(_))));
    m.apply_edit(&DisplayId("200".to_string()), &OutputEdit::Resolution(Extent2D { width: 1280, height: 720 })).unwrap();
    assert_eq!(m.ccd.as_ref().unwrap().outputs[0].geometry.size, Extent2D { width: 1280, height: 720 });
    m.set_persistence(false);
    assert!(!m.ccd.as_ref().unwrap().persist);
    assert!(!m.gdi.persistence_enabled);
}

#[test]
fn missing_ccd_is_reported() {
    let mut m = WinDisplayManager::from_backends(None, gdi(), None);
    m.use_ccd = true;
    assert_eq!(m.commit_route(), WinCommitRoute::CcdMissing);
    match m.ccd_missing_error() {
        DisplayError::BackendError(s) => assert_eq!(s, "CCD backend uninitialized"),
        _ => panic!(),
    }
}

#[test]
fn auto_position_defaults_to_1920() {
    let mut g = gdi();
    for o in g.outputs.iter_mut() {
        o.enabled = false;
    }
    let m = WinDisplayManager::from_backends(None, g, None);
    assert_eq!(m.auto_position_right_of(), Point2D { x: 1920, y: 0 });
}

#[test]
fn stage_activation_places_and_enables() {
    let mut g = gdi();
    g.outputs[1].enabled = false;
    let mut m = WinDisplayManager::from_backends(Some(ccd()), g, None);
    m.ccd.as_mut().unwrap().outputs[0].enabled = false;
    m.stage_activation(200, Some(Extent2D { width: 1600, height: 900 }), None).unwrap();
    let c = m.ccd.as_ref().unwrap();
    assert!(c.outputs[0].enabled);
    assert_eq!(c.outputs[0].geometry.size, Extent2D { width: 1600, height: 900 });
    assert_eq!(c.outputs[0].geometry.origin, Point2D { x: 1920, y: 0 });
    assert!(c.dirty);
    match m.stage_activation(404, None, Some(Point2D { x: 0, y: 0 })) {
        Err(DisplayError::NotFound(d)) => assert_eq!(d.0, "404"),
        _ => panic!(),
    }
}

#[test]
fn gdi_settings_carry_over_to_ccd() {
    let mut g = gdi();
    enrich_gdi_topology(&mut g, &Some(map()));
    let id = DisplayId("\\\\.\\DISPLAY2".to_string());
    g.apply_edit(&id, &OutputEdit::Scale(125)).unwrap();
    g.apply_edit(&id, &OutputEdit::Hdr(HdrState::Enabled, HdrMode::Default)).unwrap();
    let reqs = gdi_ccd_sync_requests(&g, &ccd());
    assert_eq!(reqs.len(), 2);
    match reqs[0] {
        DeviceInfoRequest::Scale(p) => {
            assert_eq!(p.scale_factor_as_percent, 125);
            assert_eq!(p.header.id, 200);
            assert_eq!(p.header.adapter_low, 9);
        },
        _ => panic!(),
    }
    assert!(matches!(reqs[1], DeviceInfoRequest::Hdr(p) if p.enabled == 1));
}

#[test]
fn after_gdi_commit_switches_to_ccd() {
    let mut m = WinDisplayManager::from_backends(None, gdi(), Some(map()));
    m.apply_edit(&DisplayId("\\\\.\\DISPLAY2".to_string()), &OutputEdit::Scale(150)).unwrap();
    m.apply_edit(&DisplayId("\\\\.\\DISPLAY1".to_string()), &OutputEdit::Primary).unwrap();
    let reqs = m.after_gdi_commit(Some(ccd()));
    assert_eq!(reqs.len(), 1);
    assert!(m.uses_ccd());
    assert!(m.gdi.target_primary_id.is_none());
    let mut n = WinDisplayManager::from_backends(None, gdi(), None);
    assert!(n.after_gdi_commit(None).is_empty());
    assert!(!n.uses_ccd());
    n.after_ccd_commit(Some(gdi()));
    assert_eq!(n.gdi.outputs.len(), 2);
}

#[test]
fn gdi_settings_go_to_every_path_of_the_target() {
    let mut g = gdi();
    enrich_gdi_topology(&mut g, &Some(map()));
    let id = DisplayId("\\\\.\\DISPLAY2".to_string());
    g.apply_edit(&id, &OutputEdit::Scale(125)).unwrap();
    let mut c = ccd();
    let mut second = c.data.paths[0];
    second.adapter_low = 11;
    c.data.paths.push(second);
    let reqs = gdi_ccd_sync_requests(&g, &c);
    assert_eq!(reqs.len(), 2);
    assert!(matches!(reqs[0], DeviceInfoRequest::Scale(p) if p.header.adapter_low == 9));
    assert!(matches!(reqs[1], DeviceInfoRequest::Scale(p) if p.header.adapter_low == 11));
}
