use df_displmgr::backends::overlap::check_overlap;
use df_displmgr::types::{Extent2D, Point2D, Rect};
use df_displmgr::DisplayError;

fn r(x: i32, y: i32, w: u32, h: u32) -> Rect {
    Rect { origin: Point2D { x, y }, size: Extent2D { width: w, height: h } }
}

#[test]
fn no_overlap() {
    let outputs = vec![
        (
            true,
            Rect {
                origin: Point2D { x: 0, y: 0 },
                size: Extent2D { width: 1920, height: 1080 },
            },
        ),
        (
            true,
            Rect {
                origin: Point2D { x: 1920, y: 0 },
                size: Extent2D { width: 1920, height: 1080 },
            },
        ),
    ];
    assert!(check_overlap(&outputs).is_ok());
}

#[test]
fn overlapping_detected() {
    let outputs = vec![
        (
            true,
            Rect {
                origin: Point2D { x: 0, y: 0 },
                size: Extent2D { width: 1920, height: 1080 },
            },
        ),
        (
            true,
            Rect {
                origin: Point2D { x: 500, y: 500 },
                size: Extent2D { width: 1920, height: 1080 },
            },
        ),
    ];
    assert!(check_overlap(&outputs).is_err());
}

#[test]
fn disabled_ignored() {
    let outputs = vec![
        (
            true,
            Rect {
                origin: Point2D { x: 0, y: 0 },
                size: Extent2D { width: 1920, height: 1080 },
            },
        ),
        (
            false,
            Rect {
                origin: Point2D { x: 0, y: 0 },
                size: Extent2D { width: 1920, height: 1080 },
            },
        ),
    ];
    assert!(check_overlap(&outputs).is_ok());
}

#[test]
fn empty_slice() {
    let outputs: Vec<(bool, Rect)> = vec![];
    assert!(check_overlap(&outputs).is_ok());
}

#[test]
fn overlap_error_is_configuration_rejected() {
    let outputs = vec![(true, r(0, 0, 100, 100)), (true, r(99, 99, 10, 10))];
    assert!(matches!(check_overlap(&outputs), Err(DisplayError::ConfigurationRejected)));
}

#[test]
fn overlap_touching_edges_allowed() {
    // Sharing an edge (vertically stacked) is not an overlap.
    let outputs = vec![(true, r(0, 0, 100, 100)), (true, r(0, 100, 100, 100))];
    assert!(check_overlap(&outputs).is_ok());
}

#[test]
fn overlap_found_among_later_pair() {
    let outputs = vec![
        (true, r(0, 0, 100, 100)),
        (true, r(200, 0, 100, 100)),
        (false, r(50, 50, 100, 100)),
        (true, r(250, 50, 10, 10)),
    ];
    assert!(check_overlap(&outputs).is_err());
}

#[test]
fn overlap_edges_beyond_i32_are_exact() {
    // A right edge past i32::MAX is not folded back into the coordinate space.
    let outputs = vec![(true, r(i32::MAX - 10, 0, 100, 100)), (true, r(i32::MIN, 0, 100, 100))];
    assert!(check_overlap(&outputs).is_ok());
}

#[test]
fn overlap_result_ignores_order() {
    let a = (true, r(0, 0, 100, 100));
    let b = (true, r(200, 0, 100, 100));
    let c = (true, r(50, 50, 100, 100));
    let fwd = [a, b, c];
    let rev = [c, b, a];
    let mid = [b, a, c];
    assert!(check_overlap(&fwd).is_err());
    assert!(check_overlap(&rev).is_err());
    assert!(check_overlap(&mid).is_err());
    let ok = [a, b];
    let ok_rev = [b, a];
    assert!(check_overlap(&ok).is_ok());
    assert!(check_overlap(&ok_rev).is_ok());
}

#[test]
fn overlap_result_same_on_enabled_only() {
    let all = [(true, r(0, 0, 100, 100)), (false, r(10, 10, 100, 100)), (true, r(100, 0, 50, 50))];
    let enabled = [(true, r(0, 0, 100, 100)), (true, r(100, 0, 50, 50))];
    assert_eq!(check_overlap(&all).is_ok(), check_overlap(&enabled).is_ok());
    let one = [(false, r(0, 0, 10, 10)), (true, r(0, 0, 10, 10)), (false, r(0, 0, 10, 10))];
    assert!(check_overlap(&one).is_ok());
}
