//! Reading CCD records: output snapshots from paths and modes, target names,
//! and the mapping of Win32 failures.
use vstd::prelude::*;
use vstd::string::StringExecFns;

use super::displmgr_ccd_sys::{
    CcdMode, CcdPath, CcdRawData, DISPLAYCONFIG_PATH_ACTIVE, DISPLAYCONFIG_PATH_MODE_IDX_INVALID,
};
use crate::backends::windows::displmgr_gdi::displmgr_gdi_sys::{decode_utf16_lossy, from_wide, until_nul};
use crate::error::{DisplayError, DisplayResult};
use crate::text::{decimal, hex10, u32_to_decimal, u32_to_hex10};
use crate::types::{
    AdapterId, ConnectorId, DisplayId, DisplayIdentity, DisplayRotation, Extent2D, HdrMode, HdrState,
    OutputState, OutputStateView, Point2D, Rect, VideoMode,
};

verus! {

/// The text every Win32 failure message is prefixed with.
pub open spec fn win32_prefix() -> Seq<char> {
    seq!['W', 'i', 'n', '3', '2', ' ', 'E', 'r', 'r', 'o', 'r', ':', ' ']
}

/// Maps the outcome of a Win32 call, its failure given by its message, to a
/// display result: a failure becomes a backend error that quotes it.
pub fn map_win32_code(result: Result<(), String>) -> (res: DisplayResult<()>)
    ensures
        result is Ok ==> res is Ok,
        result matches Err(e) ==> (res matches Err(DisplayError::BackendError(m)) && m@ == win32_prefix()
            + e@),
{
    match result {
        Ok(()) => Ok(()),
        Err(e) => {
            proof {
                reveal_strlit("Win32 Error: ");
            }
            let m = String::from_str("Win32 Error: ").concat(e.as_str());
            assert(m@ =~= win32_prefix() + e@);
            Err(DisplayError::BackendError(m))
        },
    }
}

/// The name synthesized for a target whose friendly name cannot be read:
/// `Display_`, the adapter's low part in hexadecimal, `_` and the target id.
pub open spec fn fallback_target_name(adapter_low: u32, target_id: u32) -> Seq<char> {
    seq!['D', 'i', 's', 'p', 'l', 'a', 'y', '_'] + hex10(adapter_low) + seq!['_'] + decimal(
        target_id as nat,
    )
}

/// The name of a target: the friendly name the device-info query returned
/// when it succeeded (`status == 0`) with a non-empty name, else the
/// synthesized one.
pub open spec fn target_name_spec(status: i32, name: Seq<u16>, adapter_low: u32, target_id: u32) -> Seq<
    char,
> {
    if status == 0 && name.len() > 0 && name[0] != 0 {
        decode_utf16_lossy(until_nul(name))
    } else {
        fallback_target_name(adapter_low, target_id)
    }
}

/// Chooses the name of a target from the outcome of the friendly-name query.
pub fn target_name(status: i32, name: &[u16], adapter_low: u32, target_id: u32) -> (res: String)
    ensures
        res@ == target_name_spec(status, name@, adapter_low, target_id),
{
    if status == 0 && name.len() > 0 && name[0] != 0 {
        from_wide(name)
    } else {
        proof {
            reveal_strlit("Display_");
            reveal_strlit("_");
        }
        let res = String::from_str("Display_").concat(u32_to_hex10(adapter_low).as_str()).concat(
            "_",
        ).concat(u32_to_decimal(target_id).as_str());
        assert(res@ =~= fallback_target_name(adapter_low, target_id));
        res
    }
}

/// The rotation a CCD rotation value stands for; anything unknown reads as
/// no rotation.
pub open spec fn ccd_rotation(v: u32) -> DisplayRotation {
    if v == 2 {
        DisplayRotation::Rotate90
    } else if v == 3 {
        DisplayRotation::Rotate180
    } else if v == 4 {
        DisplayRotation::Rotate270
    } else {
        DisplayRotation::Rotate0
    }
}

/// The CCD rotation value of a rotation.
pub open spec fn ccd_rotation_value(r: DisplayRotation) -> u32 {
    match r {
        DisplayRotation::Rotate0 => 1,
        DisplayRotation::Rotate90 => 2,
        DisplayRotation::Rotate180 => 3,
        DisplayRotation::Rotate270 => 4,
    }
}

/// Reading back the value written for a rotation gives that rotation.
pub proof fn lemma_ccd_rotation_roundtrip(r: DisplayRotation)
    ensures
        ccd_rotation(ccd_rotation_value(r)) == r,
{
}

/// Reads a CCD rotation value.
pub fn rotation_from_ccd(v: u32) -> (res: DisplayRotation)
    ensures
        res == ccd_rotation(v),
{
    if v == 2 {
        DisplayRotation::Rotate90
    } else if v == 3 {
        DisplayRotation::Rotate180
    } else if v == 4 {
        DisplayRotation::Rotate270
    } else {
        DisplayRotation::Rotate0
    }
}

/// The CCD rotation value to write for a rotation.
pub fn rotation_to_ccd(r: DisplayRotation) -> (res: u32)
    ensures
        res == ccd_rotation_value(r),
{
    match r {
        DisplayRotation::Rotate0 => 1,
        DisplayRotation::Rotate90 => 2,
        DisplayRotation::Rotate180 => 3,
        DisplayRotation::Rotate270 => 4,
    }
}

/// A mode index that refers to an entry of a mode array of length `len`.
pub open spec fn mode_index_valid(idx: u32, len: int) -> bool {
    idx != DISPLAYCONFIG_PATH_MODE_IDX_INVALID && idx < len
}

/// The desktop rectangle of a path: its source mode, when the path refers to
/// one, else the empty rectangle at the origin.
pub open spec fn path_geometry(path: CcdPath, modes: Seq<CcdMode>) -> Rect {
    let empty = Rect { origin: Point2D { x: 0, y: 0 }, size: Extent2D { width: 0, height: 0 } };
    if mode_index_valid(path.source_mode_idx, modes.len() as int) {
        match modes[path.source_mode_idx as int] {
            CcdMode::Source { x, y, width, height } => Rect {
                origin: Point2D { x, y },
                size: Extent2D { width, height },
            },
            _ => empty,
        }
    } else {
        empty
    }
}

/// The refresh rate of a path in millihertz: the target mode's sync
/// frequency times 1000, divided down and kept to 32 bits, when the path
/// refers to a target mode with a nonzero denominator; else zero.
pub open spec fn path_refresh(path: CcdPath, modes: Seq<CcdMode>) -> u32 {
    if mode_index_valid(path.target_mode_idx, modes.len() as int) {
        match modes[path.target_mode_idx as int] {
            CcdMode::Target { vsync_numerator, vsync_denominator } => if vsync_denominator != 0 {
                ((vsync_numerator as nat * 1000) / (vsync_denominator as nat)) as u32
            } else {
                0
            },
            _ => 0,
        }
    } else {
        0
    }
}

/// The snapshot of a CCD path named `monitor_name`.
pub open spec fn path_output(path: CcdPath, modes: Seq<CcdMode>, monitor_name: Seq<char>) -> OutputStateView {
    OutputStateView {
        id: decimal(path.target_id as nat),
        connector_id: hex10(path.target_id),
        adapter_id: hex10(path.adapter_low),
        hardware_uuid: None,
        monitor_name,
        geometry: path_geometry(path, modes),
        refresh_rate: path_refresh(path, modes),
        rotation: ccd_rotation(path.rotation),
        hdr_state: HdrState::Disabled,
        hdr_mode: HdrMode::Default,
        scale_percent: 100,
        native_resolution: Some(path_geometry(path, modes).size),
        supported_modes: Seq::<VideoMode>::empty(),
        enabled: path.flags & DISPLAYCONFIG_PATH_ACTIVE != 0,
        is_primary: false,
    }
}

/// Converts a single CCD path and its modes into an output snapshot.
pub fn map_path_to_output(path: &CcdPath, modes: &[CcdMode], monitor_name: String) -> (res: OutputState)
    ensures
        res@ == path_output(*path, modes@, monitor_name@),
{
    let n = modes.len();
    let mut geometry = Rect::default();
    let si = path.source_mode_idx;
    if si != DISPLAYCONFIG_PATH_MODE_IDX_INVALID && (si as usize) < n {
        match modes[si as usize] {
            CcdMode::Source { x, y, width, height } => {
                geometry = Rect { origin: Point2D { x, y }, size: Extent2D { width, height } };
            },
            _ => {},
        }
    }
    let mut refresh_rate: u32 = 0;
    let ti = path.target_mode_idx;
    if ti != DISPLAYCONFIG_PATH_MODE_IDX_INVALID && (ti as usize) < n {
        match modes[ti as usize] {
            CcdMode::Target { vsync_numerator, vsync_denominator } => {
                if vsync_denominator != 0 {
                    let mhz: u64 = (vsync_numerator as u64 * 1000) / vsync_denominator as u64;
                    refresh_rate = mhz as u32;
                }
            },
            _ => {},
        }
    }
    let identity = DisplayIdentity {
        id: DisplayId(u32_to_decimal(path.target_id)),
        connector_id: ConnectorId(u32_to_hex10(path.target_id)),
        adapter_id: AdapterId(u32_to_hex10(path.adapter_low)),
        hardware_uuid: None,
        monitor_name,
    };
    OutputState {
        identity,
        geometry,
        refresh_rate,
        rotation: rotation_from_ccd(path.rotation),
        hdr_state: HdrState::Disabled,
        hdr_mode: HdrMode::Default,
        scale_percent: 100,
        native_resolution: Some(geometry.size),
        supported_modes: Vec::new(),
        enabled: path.flags & DISPLAYCONFIG_PATH_ACTIVE != 0,
        is_primary: false,
    }
}

/// The snapshots of every path of `data`, the i-th named `names[i]`.
pub fn ccd_outputs(data: &CcdRawData, names: Vec<String>) -> (res: Vec<OutputState>)
    requires
        names@.len() == data.paths@.len(),
    ensures
        res@.len() == data.paths@.len(),
        forall|i: int|
            0 <= i < res@.len() ==> #[trigger] res@[i]@ == path_output(
                data.paths@[i],
                data.modes@,
                names@[i]@,
            ),
{
    let mut res: Vec<OutputState> = Vec::new();
    let n = data.paths.len();
    let mut names = names;
    let ghost orig = names@;
    let mut i: usize = 0;
    while i < n
        invariant
            n == data.paths@.len(),
            orig.len() == n,
            i <= n,
            names@ == orig.subrange(i as int, n as int),
            res@.len() == i,
            forall|j: int|
                0 <= j < i ==> #[trigger] res@[j]@ == path_output(data.paths@[j], data.modes@, orig[j]@),
        decreases n - i,
    {
        let name = names.remove(0);
        res.push(map_path_to_output(&data.paths[i], data.modes.as_slice(), name));
        i = i + 1;
    }
    res
}

/// A path that refers to a desktop (source) mode is reported exactly where
/// that mode places it: its origin is the mode's position, both coordinates,
/// and its size, also reported as its native resolution, is the mode's.
pub proof fn lemma_path_output_at_source_mode(path: CcdPath, modes: Seq<CcdMode>, name: Seq<char>)
    requires
        path.source_mode_idx != DISPLAYCONFIG_PATH_MODE_IDX_INVALID,
        (path.source_mode_idx as int) < modes.len(),
    ensures
        match modes[path.source_mode_idx as int] {
            CcdMode::Source { x, y, width, height } => {
                let o = path_output(path, modes, name);
                &&& o.geometry.origin.x == x
                &&& o.geometry.origin.y == y
                &&& o.geometry.size.width == width
                &&& o.geometry.size.height == height
                &&& o.native_resolution == Some(Extent2D { width, height })
            },
            _ => path_output(path, modes, name).geometry.size.width == 0,
        },
{
}

} // verus!
