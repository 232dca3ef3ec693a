use df_displmgr::types::{DisplayRotation, HdrState, OutputState};
use df_displmgr::backends::windows::displmgr_gdi::displmgr_gdi_sys::{
    create_empty_devmode, from_wide, to_wide,
};
use df_displmgr::backends::windows::displmgr_gdi::displmgr_gdi_sys::gdi_flags;

#[test]
fn outputstate_default_and_landscape() {
    let mut s = OutputState::default();
    // default geometry is 0x0 -> treated as landscape (width >= height)
    assert_eq!(s.scale_percent, 100);
    assert_eq!(s.hdr_state, HdrState::Disabled);
    // set a landscape geometry
    s.geometry.size.width = 1920;
    s.geometry.size.height = 1080;
    s.rotation = DisplayRotation::Rotate0;
    assert!(s.is_landscape());

    // portrait when rotated 90 degrees
    s.rotation = DisplayRotation::Rotate90;
    assert!(!s.is_landscape());

    // swapped sizes with rotation should be considered landscape
    s.geometry.size.width = 1080;
    s.geometry.size.height = 1920;
    s.rotation = DisplayRotation::Rotate90;
    assert!(s.is_landscape());
}

#[test]
fn wide_roundtrip() {
    let text = "Hello, 世界";
    let wide = to_wide(text);
    // last element must be NUL
    assert_eq!(*wide.last().unwrap(), 0);
    let out = from_wide(&wide);
    assert_eq!(out, text.to_string());
}

#[test]
fn create_empty_devmode_has_size() {
    // A DEVMODEW record is 220 bytes long.
    let dm = create_empty_devmode();
    assert_eq!(dm.size as usize, 220);
}

#[test]
fn gdi_flag_constants_sanity() {
    // GLOBAL_FLUSH_FLAGS should be zero
    assert_eq!(gdi_flags::GLOBAL_FLUSH_FLAGS.0, 0);
    // STAGE_FLAGS should not equal GLOBAL_FLUSH_FLAGS
    assert_ne!(gdi_flags::STAGE_FLAGS.0, gdi_flags::GLOBAL_FLUSH_FLAGS.0);
}

#[test]
fn wide_encoding_exact_units() {
    // 'A' is one unit, U+1F600 is a surrogate pair.
    assert_eq!(to_wide("A\u{1F600}"), vec![0x41, 0xD83D, 0xDE00, 0]);
    assert_eq!(to_wide(""), vec![0]);
}

#[test]
fn wide_decoding_stops_at_nul_and_replaces_unpaired() {
    assert_eq!(from_wide(&[0x48, 0x69, 0, 0x58]), "Hi");
    assert_eq!(from_wide(&[0xD83D, 0x41]), "\u{FFFD}A");
    assert_eq!(from_wide(&[0xDE00]), "\u{FFFD}");
    assert_eq!(from_wide(&[0xD83D, 0xDE00]), "\u{1F600}");
    assert_eq!(from_wide(&[]), "");
}

#[test]
fn gdi_stage_flags_values() {
    assert_eq!(gdi_flags::STAGE_FLAGS.0, 0x1000_0001);
    assert_eq!(gdi_flags::STAGE_PRIMARY_FLAGS.0, 0x1000_0011);
}
