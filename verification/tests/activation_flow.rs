use df_displmgr::activation::{
    final_commit_failure, force_all_failure, open_failure, placement_edits, placement_failure, placement_position,
    restore_commit_failure, restore_plan, save_topology, was_active,
};
use df_displmgr::types::{
    ActivationPlan, DisplayId, DisplayRotation, Extent2D, OutputState, Point2D, Rect,
};
use df_displmgr::{DisplayError, OutputEdit};

fn output(id: &str, x: i32, w: u32, enabled: bool) -> OutputState {
    let mut o = OutputState::default();
    o.identity.id = DisplayId(id.to_string());
    o.identity.monitor_name = format!("  Monitor {}  ", id);
    o.geometry = Rect { origin: Point2D { x, y: 0 }, size: Extent2D { width: w, height: 1080 } };
    o.enabled = enabled;
    o
}

#[test]
fn saving_the_layout() {
    let outs = vec![output("1", 0, 1920, true), output("2", 1920, 1280, false)];
    let saved = save_topology(&outs);
    assert_eq!(saved.len(), 2);
    assert_eq!(saved[0].0, "1");
    assert_eq!(saved[0].1.name, "Monitor 1");
    assert_eq!((saved[1].1.x, saved[1].1.width, saved[1].1.enabled), (1920, 1280, false));
    assert!(was_active(&saved, 1));
    assert!(!was_active(&saved, 2));
    assert!(!was_active(&saved, 3));
}

#[test]
fn restore_plan_puts_layout_back() {
    let before = vec![output("1", 0, 1920, true), output("2", 1920, 1280, false)];
    let saved = save_topology(&before);
    // after forcing every display on, a third output appeared and the first moved
    let now = vec![output("1", 500, 800, true), output("2", 1920, 1280, true), output("3", 0, 640, true), output("4", 0, 640, true)];
    let plan = restore_plan(&saved, &now, 3);
    assert_eq!(plan.len(), 4);
    assert_eq!(plan[0].0, DisplayId("1".to_string()));
    assert_eq!(
        plan[0].1,
        vec![
            OutputEdit::Enabled(true),
            OutputEdit::Position(Point2D { x: 0, y: 0 }),
            OutputEdit::Resolution(Extent2D { width: 1920, height: 1080 }),
        ]
    );
    assert_eq!(plan[1].1, vec![OutputEdit::Enabled(false)]);
    assert!(plan[2].1.is_empty());
    assert_eq!(plan[3].1, vec![OutputEdit::Enabled(false)]);
}

#[test]
fn placement() {
    let outs = vec![output("1", 0, 1920, true), output("2", 1920, 2560, true), output("3", 9000, 10, false)];
    let auto = ActivationPlan::default();
    assert_eq!(placement_position(&auto, &outs), Point2D { x: 4480, y: 0 });
    assert_eq!(placement_position(&auto, &[]), Point2D { x: 0, y: 0 });
    let planned = ActivationPlan {
        position: Some(Point2D { x: -100, y: 50 }),
        resolution: Some(Extent2D { width: 1280, height: 720 }),
        rotation: Some(DisplayRotation::Rotate90),
    };
    assert_eq!(placement_position(&planned, &outs), Point2D { x: -100, y: 50 });
    assert_eq!(
        placement_edits(&planned, Point2D { x: -100, y: 50 }),
        vec![
            OutputEdit::Enabled(true),
            OutputEdit::Position(Point2D { x: -100, y: 50 }),
            OutputEdit::Resolution(Extent2D { width: 1280, height: 720 }),
            OutputEdit::Rotation(DisplayRotation::Rotate90),
        ]
    );
    assert_eq!(placement_edits(&auto, Point2D { x: 1, y: 0 }).len(), 2);
}

#[test]
fn activation_failure_texts() {
    let id = DisplayId("7".to_string());
    let cause = DisplayError::NotFound(id.clone());
    let text = |e: DisplayError| match e {
        DisplayError::BackendError(m) => m,
        _ => panic!("expected a backend error"),
    };
    assert_eq!(
        text(placement_failure(&OutputEdit::Enabled(true), &id, &cause)),
        "set_enabled for '7' failed: interface or monitor '7' not found"
    );
    assert_eq!(
        text(placement_failure(&OutputEdit::Rotation(DisplayRotation::Rotate0), &id, &DisplayError::ConfigurationRejected)),
        "set_rotation for '7' failed: the system rejected the requested configuration"
    );
    assert_eq!(text(open_failure(&id, &cause)), "edit_output '7' failed: interface or monitor '7' not found");
    assert_eq!(
        text(restore_commit_failure(&DisplayError::PermissionDenied)),
        "topology restore commit failed: insufficient privileges for this operation"
    );
    assert_eq!(
        text(final_commit_failure(&DisplayError::StaleTopology)),
        "final commit failed: topology stale \u{2014} re-acquire before committing"
    );
    assert_eq!(text(force_all_failure("boom".to_string())), "force_all failed: boom");
}
