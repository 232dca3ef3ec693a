//! Reading GDI devices and planning GDI mode changes: the output a device
//! reports, the sequence of `ChangeDisplaySettingsExW` calls that a commit
//! makes, and the records that undo a temporary change.
use vstd::prelude::*;
use vstd::string::StringExecFns;

use super::displmgr_gdi_sys::gdi_flags::{CDS_NORESET, CDS_SET_PRIMARY, CDS_UPDATEREGISTRY};
use super::displmgr_gdi_sys::{
    decode_utf16_lossy, dmdo_rotation, dmdo_to_rotation, dmdo_value, from_wide, rotation_to_dmdo, until_nul,
    GdiDevMode, DM_DISPLAYORIENTATION, DM_PELSHEIGHT, DM_PELSWIDTH, DM_POSITION,
};
use super::{mode_lookup, mode_names, GdiTopology, GdiView};
use crate::backends::wake::{find_output, output_ids};
use crate::backends::windows::displmgr_ccd::displmgr_ccd_sys::{
    CcdMode, CcdPath, DISPLAYCONFIG_PATH_ACTIVE, DISPLAYCONFIG_PATH_MODE_IDX_INVALID,
};
use crate::backends::windows::displmgr_ccd::path_targets;
use crate::error::DisplayError;
use crate::text::{decimal, hex_digits, u32_to_decimal, u32_to_hex10};
use crate::traits::{first_from, first_index};
use crate::types::{
    AdapterId, ConnectorId, DisplayId, DisplayIdentity, Extent2D, HdrMode, HdrState, OutputState,
    OutputStateView, Point2D, Rect, VideoMode,
};

verus! {

/// Device state flag: the device is attached to the desktop.
pub const ATTACHED_TO_DESKTOP: u32 = 0x0000_0001;

/// Device state flag: the device is the primary display.
pub const PRIMARY_DEVICE: u32 = 0x0000_0004;

/// Default width for forced activation of inactive displays.
pub const DEFAULT_WIDTH: u32 = 1920;

/// Default height for forced activation of inactive displays.
pub const DEFAULT_HEIGHT: u32 = 1080;

/// Maximum number of display devices to enumerate.
pub const MAX_DEVICES: u32 = 64;

/// The output a GDI device reports, given its name, device id and device
/// string (as wide strings), its state flags and its current display record.
pub open spec fn gdi_output_view(
    name: Seq<u16>,
    device_id: Seq<u16>,
    device_string: Seq<u16>,
    state_flags: u32,
    mode: GdiDevMode,
) -> OutputStateView {
    let size = Extent2D { width: mode.pels_width, height: mode.pels_height };
    OutputStateView {
        id: decode_utf16_lossy(until_nul(name)),
        connector_id: decode_utf16_lossy(until_nul(name)),
        adapter_id: decode_utf16_lossy(until_nul(device_id)),
        hardware_uuid: None,
        monitor_name: decode_utf16_lossy(until_nul(device_string)),
        geometry: Rect { origin: Point2D { x: mode.position_x, y: mode.position_y }, size },
        refresh_rate: (mode.display_frequency * 1000) as u32,
        rotation: dmdo_rotation(mode.orientation),
        hdr_state: HdrState::Disabled,
        hdr_mode: HdrMode::Default,
        scale_percent: 100,
        native_resolution: Some(size),
        supported_modes: Seq::<VideoMode>::empty(),
        enabled: state_flags & ATTACHED_TO_DESKTOP != 0,
        is_primary: state_flags & PRIMARY_DEVICE != 0,
    }
}

/// The output a GDI device reports. The refresh rate is the record's
/// frequency in millihertz, which must fit in 32 bits.
pub fn gdi_output(
    name: &[u16],
    device_id: &[u16],
    device_string: &[u16],
    state_flags: u32,
    mode: &GdiDevMode,
) -> (res: OutputState)
    requires
        mode.display_frequency * 1000 <= u32::MAX,
    ensures
        res@ == gdi_output_view(name@, device_id@, device_string@, state_flags, *mode),
{
    let name_str = from_wide(name);
    let size = Extent2D { width: mode.pels_width, height: mode.pels_height };
    OutputState {
        identity: DisplayIdentity {
            id: DisplayId(name_str.clone()),
            connector_id: ConnectorId(name_str),
            adapter_id: AdapterId(from_wide(device_id)),
            hardware_uuid: None,
            monitor_name: from_wide(device_string),
        },
        geometry: Rect { origin: Point2D { x: mode.position_x, y: mode.position_y }, size },
        refresh_rate: mode.display_frequency * 1000,
        rotation: dmdo_to_rotation(mode.orientation),
        hdr_state: HdrState::Disabled,
        hdr_mode: HdrMode::Default,
        scale_percent: 100,
        native_resolution: Some(size),
        supported_modes: Vec::new(),
        enabled: state_flags & ATTACHED_TO_DESKTOP != 0,
        is_primary: state_flags & PRIMARY_DEVICE != 0,
    }
}

/// Which phase of a commit a mode change belongs to.
#[derive(Debug, Clone, Copy, PartialEq, Eq, Structural)]
pub enum GdiStage {
    /// Staging the primary display.
    Primary,
    /// Staging every other display.
    Secondary,
}

/// One step of a GDI commit.
#[derive(Debug)]
pub enum GdiCommitStep {
    /// Stage `mode` on `device` with `flags`; a failure ends the commit with
    /// the error of `stage`.
    Change { device: String, mode: GdiDevMode, flags: u32, stage: GdiStage },
    /// No record was captured for this device: the commit ends with
    /// `NotFound`.
    MissingMode(DisplayId),
    /// Apply every staged record at once; a failure ends the commit.
    Flush,
}

/// The value of a [`GdiCommitStep`].
pub enum GdiStepView {
    Change { device: Seq<char>, mode: GdiDevMode, flags: u32, stage: GdiStage },
    MissingMode(Seq<char>),
    Flush,
}

impl View for GdiCommitStep {
    type V = GdiStepView;

    open spec fn view(&self) -> GdiStepView {
        match self {
            GdiCommitStep::Change { device, mode, flags, stage } => GdiStepView::Change {
                device: device@,
                mode: *mode,
                flags: *flags,
                stage: *stage,
            },
            GdiCommitStep::MissingMode(d) => GdiStepView::MissingMode(d@),
            GdiCommitStep::Flush => GdiStepView::Flush,
        }
    }
}

/// The record staged for an enabled output placed at `at`: its size, that
/// position and its orientation, with those fields marked as set.
pub open spec fn staged_mode(m: GdiDevMode, o: OutputState, at: Point2D) -> GdiDevMode {
    GdiDevMode {
        fields: m.fields | DM_PELSWIDTH | DM_PELSHEIGHT | DM_POSITION | DM_DISPLAYORIENTATION,
        pels_width: o.geometry.size.width,
        pels_height: o.geometry.size.height,
        position_x: at.x,
        position_y: at.y,
        orientation: dmdo_value(o.rotation),
        ..m
    }
}

/// The record staged for a disabled output: a zero size, marked as set.
pub open spec fn disabled_mode(m: GdiDevMode) -> GdiDevMode {
    GdiDevMode { fields: m.fields | DM_PELSWIDTH | DM_PELSHEIGHT, pels_width: 0, pels_height: 0, ..m }
}

/// Flags for staging the primary display.
pub open spec fn primary_flags(persist: bool) -> u32 {
    if persist {
        CDS_UPDATEREGISTRY | CDS_NORESET | CDS_SET_PRIMARY
    } else {
        CDS_NORESET | CDS_SET_PRIMARY
    }
}

/// Flags for staging every other display.
pub open spec fn secondary_flags(persist: bool) -> u32 {
    if persist {
        CDS_UPDATEREGISTRY | CDS_NORESET
    } else {
        CDS_NORESET
    }
}

/// The first phase: the staged primary, at the origin, when it has both an
/// output and a captured record.
pub open spec fn primary_steps(t: GdiView) -> Seq<GdiStepView> {
    match t.primary {
        Some(pid) => match first_index(output_ids(t.outputs), pid) {
            Some(k) => match mode_lookup(t.saved, pid) {
                Some(m) => seq![
                    GdiStepView::Change {
                        device: pid,
                        mode: staged_mode(m, t.outputs[k], Point2D { x: 0, y: 0 }),
                        flags: primary_flags(t.persist),
                        stage: GdiStage::Primary,
                    },
                ],
                None => Seq::empty(),
            },
            None => Seq::empty(),
        },
        None => Seq::empty(),
    }
}

/// The second phase from output `i` on: every output but the primary, in
/// order, staged as it is now, then the flush; an output without a captured
/// record ends the plan.
pub open spec fn secondary_steps(t: GdiView, i: int) -> Seq<GdiStepView>
    decreases t.outputs.len() - i,
{
    if i < 0 || i >= t.outputs.len() {
        seq![GdiStepView::Flush]
    } else {
        let o = t.outputs[i];
        if t.primary == Some(o.identity.id@) {
            secondary_steps(t, i + 1)
        } else {
            match mode_lookup(t.saved, o.identity.id@) {
                None => seq![GdiStepView::MissingMode(o.identity.id@)],
                Some(m) => seq![
                    GdiStepView::Change {
                        device: o.identity.id@,
                        mode: if o.enabled {
                            staged_mode(m, o, o.geometry.origin)
                        } else {
                            disabled_mode(m)
                        },
                        flags: secondary_flags(t.persist),
                        stage: GdiStage::Secondary,
                    },
                ] + secondary_steps(t, i + 1),
            }
        }
    }
}

/// The steps of a GDI commit, in order.
pub open spec fn gdi_commit_plan(t: GdiView) -> Seq<GdiStepView> {
    primary_steps(t) + secondary_steps(t, 0)
}

/// The error a failed staging step ends the commit with.
pub open spec fn stage_failure_text(stage: GdiStage) -> Seq<char> {
    match stage {
        GdiStage::Primary => seq![
            'P', 'r', 'i', 'm', 'a', 'r', 'y', ' ', 's', 't', 'a', 'g', 'i', 'n', 'g', ' ', 'f', 'a',
            'i', 'l', 'e', 'd'
        ],
        GdiStage::Secondary => seq![
            'S', 'e', 'c', 'o', 'n', 'd', 'a', 'r', 'y', ' ', 's', 't', 'a', 'g', 'i', 'n', 'g', ' ',
            'f', 'a', 'i', 'l', 'e', 'd'
        ],
    }
}

/// The text of a failed global flush.
pub open spec fn flush_failure_text() -> Seq<char> {
    seq!['G', 'l', 'o', 'b', 'a', 'l', ' ', 'f', 'l', 'u', 's', 'h', ' ', 'f', 'a', 'i', 'l', 'e', 'd']
}

impl GdiStage {
    /// The error a commit ends with when a change of this stage is refused.
    pub fn failure(&self) -> (res: DisplayError)
        ensures
            res matches DisplayError::BackendError(m) && m@ == stage_failure_text(*self),
    {
        match self {
            GdiStage::Primary => {
                proof {
                    reveal_strlit("Primary staging failed");
                }
                let m = String::from_str("Primary staging failed");
                assert(m@ =~= stage_failure_text(*self));
                DisplayError::BackendError(m)
            },
            GdiStage::Secondary => {
                proof {
                    reveal_strlit("Secondary staging failed");
                }
                let m = String::from_str("Secondary staging failed");
                assert(m@ =~= stage_failure_text(*self));
                DisplayError::BackendError(m)
            },
        }
    }
}

/// The error a commit ends with when the global flush is refused.
pub fn flush_failure() -> (res: DisplayError)
    ensures
        res matches DisplayError::BackendError(m) && m@ == flush_failure_text(),
{
    proof {
        reveal_strlit("Global flush failed");
    }
    let m = String::from_str("Global flush failed");
    assert(m@ =~= flush_failure_text());
    DisplayError::BackendError(m)
}

fn staged_mode_exec(m: GdiDevMode, o: &OutputState, at: Point2D) -> (res: GdiDevMode)
    ensures
        res == staged_mode(m, *o, at),
{
    GdiDevMode {
        fields: m.fields | DM_PELSWIDTH | DM_PELSHEIGHT | DM_POSITION | DM_DISPLAYORIENTATION,
        pels_width: o.geometry.size.width,
        pels_height: o.geometry.size.height,
        position_x: at.x,
        position_y: at.y,
        orientation: rotation_to_dmdo(o.rotation),
        ..m
    }
}

impl GdiTopology {
    /// The record captured for the device named `name`.
    pub fn find_mode(&self, name: &String) -> (res: Option<GdiDevMode>)
        ensures
            res == mode_lookup(self@.saved, name@),
    {
        let n = self.saved_modes.len();
        let ghost names = mode_names(self@.saved);
        let mut i: usize = 0;
        while i < n
            invariant
                n == self@.saved.len(),
                names == mode_names(self@.saved),
                i <= n,
                first_index(names, name@) == first_from(names, name@, i as int),
            decreases n - i,
        {
            if self.saved_modes[i].0 == *name {
                return Some(self.saved_modes[i].1);
            }
            i = i + 1;
        }
        None
    }

    /// The steps of a commit: the primary first, then every other device in
    /// order, then the flush. The caller performs them in order and stops at
    /// the first that fails.
    pub fn commit_plan(&self) -> (res: Vec<GdiCommitStep>)
        ensures
            res@.map_values(|s: GdiCommitStep| s@) == gdi_commit_plan(self@),
    {
        let ghost t = self@;
        let mut res: Vec<GdiCommitStep> = Vec::new();
        match &self.target_primary_id {
            Some(pid) => {
                let pd = DisplayId(pid.clone());
                match find_output(&self.outputs, &pd) {
                    Some(k) => match self.find_mode(pid) {
                        Some(m) => {
                            let mode = staged_mode_exec(m, &self.outputs[k], Point2D { x: 0, y: 0 });
                            let flags = if self.persistence_enabled {
                                CDS_UPDATEREGISTRY | CDS_NORESET | CDS_SET_PRIMARY
                            } else {
                                CDS_NORESET | CDS_SET_PRIMARY
                            };
                            res.push(
                                GdiCommitStep::Change {
                                    device: pid.clone(),
                                    mode,
                                    flags,
                                    stage: GdiStage::Primary,
                                },
                            );
                        },
                        None => {},
                    },
                    None => {},
                }
            },
            None => {},
        }
        proof {
            assert(res@.map_values(|s: GdiCommitStep| s@) =~= primary_steps(t));
        }
        let ghost first = res@.map_values(|s: GdiCommitStep| s@);
        let n = self.outputs.len();
        let mut i: usize = 0;
        while i < n
            invariant
                n == t.outputs.len(),
                t == self@,
                i <= n,
                first == primary_steps(t),
                res@.map_values(|s: GdiCommitStep| s@) + secondary_steps(t, i as int) == gdi_commit_plan(t),
            decreases n - i,
        {
            let ghost before = res@.map_values(|s: GdiCommitStep| s@);
            let o = &self.outputs[i];
            let is_primary = match &self.target_primary_id {
                Some(pid) => o.identity.id.0 == *pid,
                None => false,
            };
            if is_primary {
                i = i + 1;
            } else {
                match self.find_mode(&o.identity.id.0) {
                    None => {
                        res.push(GdiCommitStep::MissingMode(o.identity.id.clone()));
                        proof {
                            assert(res@.map_values(|s: GdiCommitStep| s@) =~= before.push(
                                GdiStepView::MissingMode(o.identity.id@),
                            ));
                            assert(before + secondary_steps(t, i as int) =~= before.push(
                                GdiStepView::MissingMode(o.identity.id@),
                            ));
                        }
                        return res;
                    },
                    Some(m) => {
                        let mode = if o.enabled {
                            staged_mode_exec(m, o, o.geometry.origin)
                        } else {
                            GdiDevMode {
                                fields: m.fields | DM_PELSWIDTH | DM_PELSHEIGHT,
                                pels_width: 0,
                                pels_height: 0,
                                ..m
                            }
                        };
                        let flags = if self.persistence_enabled {
                            CDS_UPDATEREGISTRY | CDS_NORESET
                        } else {
                            CDS_NORESET
                        };
                        let step = GdiCommitStep::Change {
                            device: o.identity.id.0.clone(),
                            mode,
                            flags,
                            stage: GdiStage::Secondary,
                        };
                        let ghost sv = step@;
                        res.push(step);
                        proof {
                            assert(res@.map_values(|s: GdiCommitStep| s@) =~= before.push(sv));
                            assert(secondary_steps(t, i as int) =~= seq![sv] + secondary_steps(t, i + 1));
                            assert(before.push(sv) + secondary_steps(t, i + 1) =~= before + secondary_steps(
                                t,
                                i as int,
                            ));
                        }
                        i = i + 1;
                    },
                }
            }
        }
        let ghost before = res@.map_values(|s: GdiCommitStep| s@);
        res.push(GdiCommitStep::Flush);
        proof {
            assert(res@.map_values(|s: GdiCommitStep| s@) =~= before.push(GdiStepView::Flush));
            assert(before + secondary_steps(t, n as int) =~= before.push(GdiStepView::Flush));
        }
        res
    }

    /// The commit went through: no primary is staged any more.
    pub fn finish_commit(&mut self)
        ensures
            final(self)@ == (GdiView { primary: None, ..old(self)@ }),
            super::gdi_wf(old(self)@) ==> super::gdi_wf(final(self)@),
    {
        self.target_primary_id = None;
    }
}

/// A display device as one enumeration pass sees it.
#[derive(Debug)]
pub struct ScannedDevice {
    /// GDI device name, e.g. `\\.\DISPLAY1`.
    pub gdi_name: String,
    /// Human-readable device string.
    pub dev_string: String,
    /// Whether the device is attached to the desktop.
    pub is_active: bool,
    /// Whether this is the primary display.
    pub is_primary: bool,
}

/// Reads an enumerated device.
pub fn scanned_device(name: &[u16], dev_string: &[u16], state_flags: u32) -> (res: ScannedDevice)
    ensures
        res.gdi_name@ == decode_utf16_lossy(until_nul(name@)),
        res.dev_string@ == decode_utf16_lossy(until_nul(dev_string@)),
        res.is_active == (state_flags & ATTACHED_TO_DESKTOP != 0),
        res.is_primary == (state_flags & PRIMARY_DEVICE != 0),
{
    ScannedDevice {
        gdi_name: from_wide(name),
        dev_string: from_wide(dev_string),
        is_active: state_flags & ATTACHED_TO_DESKTOP != 0,
        is_primary: state_flags & PRIMARY_DEVICE != 0,
    }
}

/// The names of the devices that forcing every display on has to switch
/// on: the inactive ones, in order.
pub open spec fn inactive_names(devices: Seq<ScannedDevice>) -> Seq<Seq<char>>
    decreases devices.len(),
{
    if devices.len() == 0 {
        Seq::empty()
    } else {
        let rest = inactive_names(devices.drop_last());
        if devices.last().is_active {
            rest
        } else {
            rest.push(devices.last().gdi_name@)
        }
    }
}

/// Lists the devices that forcing every display on switches on at the
/// default resolution.
pub fn force_all_targets(devices: &[ScannedDevice]) -> (res: Vec<String>)
    ensures
        res@.map_values(|s: String| s@) == inactive_names(devices@),
{
    let mut res: Vec<String> = Vec::new();
    let n = devices.len();
    for i in 0..n
        invariant
            n == devices@.len(),
            res@.map_values(|s: String| s@) == inactive_names(devices@.subrange(0, i as int)),
    {
        proof {
            assert(devices@.subrange(0, i + 1).drop_last() =~= devices@.subrange(0, i as int));
        }
        let ghost before = res@;
        if !devices[i].is_active {
            res.push(devices[i].gdi_name.clone());
            proof {
                assert(res@.map_values(|s: String| s@) =~= before.map_values(|s: String| s@).push(
                    devices@[i as int].gdi_name@,
                ));
            }
        }
    }
    proof {
        assert(devices@.subrange(0, n as int) =~= devices@);
    }
    res
}

/// The registry record with its resolution replaced, only width and height
/// marked as set.
pub open spec fn resolution_mode(m: GdiDevMode, width: u32, height: u32) -> GdiDevMode {
    GdiDevMode { pels_width: width, pels_height: height, fields: DM_PELSWIDTH | DM_PELSHEIGHT, ..m }
}

/// Replaces the resolution of a registry record, as a forced activation
/// writes it.
pub fn with_resolution(m: GdiDevMode, width: u32, height: u32) -> (res: GdiDevMode)
    ensures
        res == resolution_mode(m, width, height),
{
    GdiDevMode { pels_width: width, pels_height: height, fields: DM_PELSWIDTH | DM_PELSHEIGHT, ..m }
}

/// The record that undoes a temporary change: the captured one for a device
/// that was active; for one that was not, the captured one with a zero size
/// and only size and position marked as set, which switches it off.
pub open spec fn restore_mode(was_active: bool, m: GdiDevMode) -> GdiDevMode {
    if was_active {
        m
    } else {
        GdiDevMode { pels_width: 0, pels_height: 0, fields: DM_PELSWIDTH | DM_PELSHEIGHT | DM_POSITION, ..m }
    }
}

/// The monitor named in an activation request is not among the targets.
pub open spec fn monitor_not_found_text(name: Seq<char>) -> Seq<char> {
    seq!['M', 'o', 'n', 'i', 't', 'o', 'r', ' ', '\''] + name + seq![
        '\'', ' ', 'n', 'o', 't', ' ', 'f', 'o', 'u', 'n', 'd', ' ', 'i', 'n', ' ', 'C', 'C', 'D',
        ' ', 'p', 'a', 't', 'h', 's'
    ]
}

/// The error for a monitor name that no target carries.
pub fn monitor_not_found(monitor_name: &str) -> (res: DisplayError)
    ensures
        res matches DisplayError::BackendError(m) && m@ == monitor_not_found_text(monitor_name@),
{
    proof {
        reveal_strlit("Monitor '");
        reveal_strlit("' not found in CCD paths");
    }
    let m = String::from_str("Monitor '").concat(monitor_name).concat("' not found in CCD paths");
    assert(m@ =~= monitor_not_found_text(monitor_name@));
    DisplayError::BackendError(m)
}

/// `w` read as a signed 32-bit value, as `w as i32` reads it.
pub open spec fn i32_of(w: u32) -> int {
    if w <= i32::MAX as u32 {
        w as int
    } else {
        w - 0x1_0000_0000
    }
}

/// Reads `w` as a signed 32-bit value, as `w as i32` does.
pub fn as_i32(w: u32) -> (res: i32)
    ensures
        res as int == i32_of(w),
{
    if w <= 0x7fff_ffff {
        w as i32
    } else {
        let v: i64 = w as i64 - 0x1_0000_0000;
        v as i32
    }
}

/// The right edge of a source mode, as 32-bit arithmetic computes it.
pub open spec fn source_right(m: CcdMode) -> int {
    match m {
        CcdMode::Source { x, width, .. } => x + i32_of(width),
        _ => 0,
    }
}

/// Every source mode's right edge fits in 32 bits, as the arithmetic on it
/// requires.
pub open spec fn source_edges_fit(modes: Seq<CcdMode>) -> bool {
    forall|j: int|
        0 <= j < modes.len() && (#[trigger] modes[j]) is Source ==> i32::MIN <= source_right(modes[j])
            <= i32::MAX
}

/// The furthest right edge, and at least zero, among the active paths
/// before position `n` other than `skip`, whose source mode is one.
pub open spec fn rightmost_upto(paths: Seq<CcdPath>, modes: Seq<CcdMode>, skip: int, n: int) -> int
    decreases n,
{
    if n <= 0 {
        0
    } else {
        let r = rightmost_upto(paths, modes, skip, n - 1);
        let p = paths[n - 1];
        let si = p.source_mode_idx as int;
        if n - 1 != skip && p.flags & DISPLAYCONFIG_PATH_ACTIVE != 0 && si < modes.len()
            && modes[si] is Source && source_right(modes[si]) > r {
            source_right(modes[si])
        } else {
            r
        }
    }
}

/// Where a target that is already active is moved to: right of every other
/// active display, or at `width` when none reaches past the origin.
pub open spec fn reposition_x(paths: Seq<CcdPath>, modes: Seq<CcdMode>, skip: int, width: u32) -> int {
    let r = rightmost_upto(paths, modes, skip, paths.len() as int);
    if r == 0 {
        i32_of(width)
    } else {
        r
    }
}

/// The mode array after giving the source mode of `paths[idx]` the
/// resolution `width` x `height` and moving it to `x`, on the top edge.
pub open spec fn moved_modes(
    paths: Seq<CcdPath>,
    modes: Seq<CcdMode>,
    idx: int,
    x: int,
    width: u32,
    height: u32,
) -> Seq<CcdMode> {
    let si = paths[idx].source_mode_idx as int;
    if si < modes.len() && modes[si] is Source {
        modes.update(si, CcdMode::Source { x: x as i32, y: 0, width, height })
    } else {
        modes
    }
}

/// Position of the first path of `target_id`.
pub fn find_path_in(paths: &[CcdPath], target_id: u32) -> (res: Option<usize>)
    ensures
        match res {
            Some(k) => first_index(path_targets(paths@), target_id) == Some(k as int) && k < paths@.len(),
            None => first_index(path_targets(paths@), target_id) is None,
        },
{
    let n = paths.len();
    let ghost ids = path_targets(paths@);
    let mut i: usize = 0;
    while i < n
        invariant
            n == paths@.len(),
            ids == path_targets(paths@),
            i <= n,
            first_index(ids, target_id) == first_from(ids, target_id, i as int),
        decreases n - i,
    {
        if paths[i].target_id == target_id {
            return Some(i);
        }
        i = i + 1;
    }
    None
}

/// Applies the resolution `width` x `height` to an already active target
/// and moves it right of the other active displays, so that it is not
/// cloned onto one of them. Returns whether the target has a path; without
/// one nothing changes.
pub fn reposition_target(
    paths: &[CcdPath],
    modes: &mut Vec<CcdMode>,
    target_id: u32,
    width: u32,
    height: u32,
) -> (res: bool)
    requires
        source_edges_fit(old(modes)@),
    ensures
        res == (first_index(path_targets(paths@), target_id) is Some),
        match first_index(path_targets(paths@), target_id) {
            Some(idx) => final(modes)@ == moved_modes(
                paths@,
                old(modes)@,
                idx,
                reposition_x(paths@, old(modes)@, idx, width),
                width,
                height,
            ),
            None => final(modes)@ == old(modes)@,
        },
{
    let n = paths.len();
    let idx = match find_path_in(paths, target_id) {
        None => return false,
        Some(i) => i,
    };
    let mut rightmost: i32 = 0;
    let m = modes.len();
    for j in 0..n
        invariant
            n == paths@.len(),
            m == modes@.len(),
            modes@ == old(modes)@,
            idx < n,
            source_edges_fit(modes@),
            rightmost as int == rightmost_upto(paths@, modes@, idx as int, j as int),
    {
        let p = paths[j];
        if j != idx && p.flags & DISPLAYCONFIG_PATH_ACTIVE != 0 {
            let si = p.source_mode_idx as usize;
            if si < m {
                match modes[si] {
                    CcdMode::Source { x, width: w, .. } => {
                        assert(modes@[si as int] is Source);
                        let x2 = x + as_i32(w);
                        if x2 > rightmost {
                            rightmost = x2;
                        }
                    },
                    _ => {},
                }
            }
        }
    }
    if rightmost == 0 {
        rightmost = as_i32(width);
    }
    let si = paths[idx].source_mode_idx as usize;
    if si < m {
        match modes[si] {
            CcdMode::Source { .. } => {
                modes.set(si, CcdMode::Source { x: rightmost, y: 0, width, height });
            },
            _ => {},
        }
    }
    true
}

/// The paths after switching off the path of `idx`: its active flag cleared
/// and both mode indices invalid.
pub open spec fn deactivated_paths(paths: Seq<CcdPath>, idx: int) -> Seq<CcdPath> {
    paths.update(
        idx,
        CcdPath {
            flags: paths[idx].flags & !DISPLAYCONFIG_PATH_ACTIVE,
            source_mode_idx: DISPLAYCONFIG_PATH_MODE_IDX_INVALID,
            target_mode_idx: DISPLAYCONFIG_PATH_MODE_IDX_INVALID,
            ..paths[idx]
        },
    )
}

/// Switches off the path of `target_id`, or reports the target as missing
/// when no path carries it.
pub fn deactivate_target(paths: &mut Vec<CcdPath>, target_id: u32) -> (res: crate::error::DisplayResult<()>)
    ensures
        match first_index(path_targets(old(paths)@), target_id) {
            Some(idx) => res is Ok && final(paths)@ == deactivated_paths(old(paths)@, idx),
            None => final(paths)@ == old(paths)@ && (res matches Err(DisplayError::NotFound(d)) && d@
                == decimal(target_id as nat)),
        },
{
    match find_path_in(paths.as_slice(), target_id) {
        Some(idx) => {
            let mut p = paths[idx];
            p.flags = p.flags & !DISPLAYCONFIG_PATH_ACTIVE;
            p.source_mode_idx = DISPLAYCONFIG_PATH_MODE_IDX_INVALID;
            p.target_mode_idx = DISPLAYCONFIG_PATH_MODE_IDX_INVALID;
            paths.set(idx, p);
            Ok(())
        },
        None => Err(DisplayError::NotFound(DisplayId(u32_to_decimal(target_id)))),
    }
}

/// The text of a refused deactivation: the target and the status as eight
/// upper-case hexadecimal digits.
pub open spec fn deactivate_failure_text(target_id: u32, status: i32) -> Seq<char> {
    seq![
        'S', 'e', 't', 'D', 'i', 's', 'p', 'l', 'a', 'y', 'C', 'o', 'n', 'f', 'i', 'g', ' ', 'd', 'e',
        'a', 'c', 't', 'i', 'v', 'a', 't', 'e', ' ', 'f', 'a', 'i', 'l', 'e', 'd', ' ', 'f', 'o', 'r',
        ' ', 't', 'a', 'r', 'g', 'e', 't', ' '
    ] + decimal(target_id as nat) + seq![':', ' ', '0', 'x'] + hex_digits((status as u32) as nat, 8)
}

/// The error for a refused deactivation of `target_id`.
pub fn deactivate_failure(target_id: u32, status: i32) -> (res: DisplayError)
    ensures
        res matches DisplayError::BackendError(m) && m@ == deactivate_failure_text(target_id, status),
{
    proof {
        reveal_strlit("SetDisplayConfig deactivate failed for target ");
        reveal_strlit(": ");
    }
    let hex = u32_to_hex10(status as u32);
    let m = String::from_str("SetDisplayConfig deactivate failed for target ").concat(
        u32_to_decimal(target_id).as_str(),
    ).concat(": ").concat(hex.as_str());
    assert(m@ =~= deactivate_failure_text(target_id, status));
    DisplayError::BackendError(m)
}

/// Every output from `i` on other than the staged primary has a captured
/// record.
pub open spec fn records_from(t: GdiView, i: int) -> bool {
    forall|j: int|
        i <= j < t.outputs.len() && t.primary != Some(#[trigger] t.outputs[j].identity.id@) ==> mode_lookup(
            t.saved,
            t.outputs[j].identity.id@,
        ) is Some
}

/// The second phase ends with the flush exactly when every output it
/// stages has a captured record; otherwise it ends at the first output
/// without one. Every step before the last stages a record.
pub proof fn lemma_gdi_plan_ends(t: GdiView, i: int)
    requires
        0 <= i <= t.outputs.len(),
    ensures
        secondary_steps(t, i).len() > 0,
        records_from(t, i) <==> secondary_steps(t, i).last() is Flush,
        forall|k: int| 0 <= k < secondary_steps(t, i).len() - 1 ==> (#[trigger] secondary_steps(t, i)[k]) is Change,
    decreases t.outputs.len() - i,
{
    if i < t.outputs.len() {
        lemma_gdi_plan_ends(t, i + 1);
        let o = t.outputs[i];
        let rest = secondary_steps(t, i + 1);
        if t.primary != Some(o.identity.id@) {
            if let Some(m) = mode_lookup(t.saved, o.identity.id@) {
                let s = secondary_steps(t, i);
                assert(s.last() == rest.last());
                assert forall|k: int| 0 <= k < s.len() - 1 implies (#[trigger] s[k]) is Change by {
                    if k > 0 {
                        assert(s[k] == rest[k - 1]);
                    }
                }
                if records_from(t, i + 1) {
                    assert forall|j: int|
                        i <= j < t.outputs.len() && t.primary != Some(#[trigger] t.outputs[j].identity.id@) implies mode_lookup(
                        t.saved,
                        t.outputs[j].identity.id@,
                    ) is Some by {
                        if j > i {
                            assert(records_from(t, i + 1));
                        }
                    }
                }
            } else {
                assert(!records_from(t, i));
            }
        } else {
            if records_from(t, i + 1) {
                assert forall|j: int|
                    i <= j < t.outputs.len() && t.primary != Some(#[trigger] t.outputs[j].identity.id@) implies mode_lookup(
                    t.saved,
                    t.outputs[j].identity.id@,
                ) is Some by {
                    if j > i {
                        assert(records_from(t, i + 1));
                    }
                }
            }
        }
    }
}

/// Path `j` is an active path other than `skip` whose source mode is one:
/// a display that a repositioned target must stay clear of.
pub open spec fn other_active_source(paths: Seq<CcdPath>, modes: Seq<CcdMode>, skip: int, j: int) -> bool {
    &&& j != skip
    &&& paths[j].flags & DISPLAYCONFIG_PATH_ACTIVE != 0
    &&& (paths[j].source_mode_idx as int) < modes.len()
    &&& modes[paths[j].source_mode_idx as int] is Source
}

/// The right edge of the source mode of path `j`.
pub open spec fn path_right(paths: Seq<CcdPath>, modes: Seq<CcdMode>, j: int) -> int {
    source_right(modes[paths[j].source_mode_idx as int])
}

proof fn lemma_rightmost_upto_max(paths: Seq<CcdPath>, modes: Seq<CcdMode>, skip: int, n: int)
    requires
        0 <= n <= paths.len(),
    ensures
        rightmost_upto(paths, modes, skip, n) >= 0,
        forall|j: int|
            0 <= j < n && #[trigger] other_active_source(paths, modes, skip, j) ==> path_right(paths, modes, j)
                <= rightmost_upto(paths, modes, skip, n),
        rightmost_upto(paths, modes, skip, n) == 0 || exists|j: int|
            0 <= j < n && #[trigger] other_active_source(paths, modes, skip, j) && path_right(paths, modes, j)
                == rightmost_upto(paths, modes, skip, n),
    decreases n,
{
    if n > 0 {
        lemma_rightmost_upto_max(paths, modes, skip, n - 1);
        if rightmost_upto(paths, modes, skip, n) != rightmost_upto(paths, modes, skip, n - 1) {
            assert(other_active_source(paths, modes, skip, n - 1));
        }
    }
}

/// A target that is repositioned goes right of every other active display:
/// at or past the right edge of each of their desktop modes and flush with
/// one of them, whatever order the paths come in; when none reaches past
/// the origin, it goes at the requested width.
pub proof fn lemma_reposition_right_of_others(paths: Seq<CcdPath>, modes: Seq<CcdMode>, skip: int, width: u32)
    ensures
        (exists|j: int| 0 <= j < paths.len() && #[trigger] other_active_source(paths, modes, skip, j) && path_right(paths, modes, j) > 0)
            ==> {
            &&& forall|j: int|
                0 <= j < paths.len() && #[trigger] other_active_source(paths, modes, skip, j) ==> path_right(paths, modes, j)
                    <= reposition_x(paths, modes, skip, width)
            &&& exists|j: int|
                0 <= j < paths.len() && #[trigger] other_active_source(paths, modes, skip, j) && path_right(paths, modes, j)
                    == reposition_x(paths, modes, skip, width)
        },
        (forall|j: int| 0 <= j < paths.len() && #[trigger] other_active_source(paths, modes, skip, j) ==> path_right(paths, modes, j) <= 0)
            ==> reposition_x(paths, modes, skip, width) == i32_of(width),
{
    lemma_rightmost_upto_max(paths, modes, skip, paths.len() as int);
}

} // verus!
