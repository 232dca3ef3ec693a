use df_displmgr::backends::overlap::check_overlap;
use df_displmgr::backends::unsupported::{StubOutputEditor, StubTopology};
use df_displmgr::types::{DisplayId, Extent2D, Point2D, Rect};
use df_displmgr::{DisplayError, OutputEdit};

fn refused(e: &DisplayError) -> bool {
    matches!(e, DisplayError::UnsupportedFeature(s) if s.as_str() == "platform not supported")
}

#[test]
fn stub_refuses_everything() {
    assert!(matches!(StubTopology::acquire(), Err(e) if refused(&e)));
    let mut t = StubTopology;
    assert!(t.get_outputs().is_empty());
    assert!(matches!(t.edit_output(&DisplayId("x".to_string())), Err(e) if refused(&e)));
    assert!(matches!(t.validate(), Err(e) if refused(&e)));
    assert!(matches!(t.commit(), Err(e) if refused(&e)));
    t.set_persistence(true);
    let mut ed = StubOutputEditor;
    assert!(matches!(ed.apply_edit(&OutputEdit::Enabled(true)), Err(e) if refused(&e)));
    assert_eq!(ed.get_state().identity.monitor_name, "Unknown Display");
}

#[test]
fn overlap_does_not_depend_on_order() {
    let a = (true, Rect { origin: Point2D { x: 0, y: 0 }, size: Extent2D { width: 100, height: 100 } });
    let b = (true, Rect { origin: Point2D { x: 50, y: 50 }, size: Extent2D { width: 100, height: 100 } });
    assert_eq!(check_overlap(&[a, b]).is_err(), check_overlap(&[b, a]).is_err());
    assert!(check_overlap(&[a, b]).is_err());
}
