//! The CCD path and mode records, flag values and device-info payloads, as
//! plain values.
use vstd::prelude::*;

verus! {

/// Flag indicating that a path represents an active display path.
pub const DISPLAYCONFIG_PATH_ACTIVE: u32 = 0x0000_0001;

/// Sentinel value indicating an invalid mode index in a display path.
pub const DISPLAYCONFIG_PATH_MODE_IDX_INVALID: u32 = 0xffff_ffff;

/// Mode-info type of a source mode (desktop position and resolution).
pub const DISPLAYCONFIG_MODE_INFO_TYPE_SOURCE: u32 = 1;

/// Mode-info type of a target mode (signal timing).
pub const DISPLAYCONFIG_MODE_INFO_TYPE_TARGET: u32 = 2;

/// Device-info type for toggling HDR output on a target.
pub const DISPLAYCONFIG_DEVICE_INFO_SET_HDR_STATE: i32 = 12;

/// Device-info type for changing the DPI scaling factor (an undocumented
/// value used by the Windows display settings).
pub const DISPLAYCONFIG_DEVICE_INFO_SET_DPI_SCALE: i32 = -3;

/// Size in bytes of either device-info payload: the header and one 32-bit
/// field.
pub const DEVICE_INFO_PAYLOAD_SIZE: u32 = 24;

/// Path rotation: none.
pub const DISPLAYCONFIG_ROTATION_IDENTITY: u32 = 1;

/// Path rotation: 90 degrees.
pub const DISPLAYCONFIG_ROTATION_ROTATE90: u32 = 2;

/// Path rotation: 180 degrees.
pub const DISPLAYCONFIG_ROTATION_ROTATE180: u32 = 3;

/// Path rotation: 270 degrees.
pub const DISPLAYCONFIG_ROTATION_ROTATE270: u32 = 4;

/// `SetDisplayConfig`: use the paths and modes supplied.
pub const SDC_USE_SUPPLIED_DISPLAY_CONFIG: u32 = 0x0000_0020;

/// `SetDisplayConfig`: only check the configuration.
pub const SDC_VALIDATE: u32 = 0x0000_0040;

/// `SetDisplayConfig`: apply the configuration.
pub const SDC_APPLY: u32 = 0x0000_0080;

/// `SetDisplayConfig`: save the configuration to the database.
pub const SDC_SAVE_TO_DATABASE: u32 = 0x0000_0200;

/// The fields of a CCD display path that the backend reads and writes.
#[derive(Debug, Clone, Copy, PartialEq, Eq, Structural)]
pub struct CcdPath {
    /// Target identifier of the path.
    pub target_id: u32,
    /// Low part of the adapter LUID.
    pub adapter_low: u32,
    /// High part of the adapter LUID.
    pub adapter_high: i32,
    /// Path flags ([`DISPLAYCONFIG_PATH_ACTIVE`]).
    pub flags: u32,
    /// Index of the source mode in the mode array, or the invalid index.
    pub source_mode_idx: u32,
    /// Index of the target mode in the mode array, or the invalid index.
    pub target_mode_idx: u32,
    /// Rotation of the target (`DISPLAYCONFIG_ROTATION_*`).
    pub rotation: u32,
}

/// One entry of the CCD mode array.
#[derive(Debug, Clone, Copy, PartialEq, Eq, Structural)]
pub enum CcdMode {
    /// A source mode: the position and resolution on the desktop.
    Source {
        /// Left edge on the desktop.
        x: i32,
        /// Top edge on the desktop.
        y: i32,
        /// Width in pixels.
        width: u32,
        /// Height in pixels.
        height: u32,
    },
    /// A target mode: the vertical sync frequency as a fraction of hertz.
    Target {
        /// Numerator of the vertical sync frequency.
        vsync_numerator: u32,
        /// Denominator of the vertical sync frequency.
        vsync_denominator: u32,
    },
    /// Any other kind of mode (a desktop image).
    Other,
}

/// Holds the CCD path and mode arrays returned by `QueryDisplayConfig`.
#[derive(Debug)]
pub struct CcdRawData {
    /// Array of active display paths from the CCD subsystem.
    pub paths: Vec<CcdPath>,
    /// Array of display modes associated with the paths.
    pub modes: Vec<CcdMode>,
}

impl Clone for CcdRawData {
    fn clone(&self) -> (res: Self)
        ensures
            res.paths@ == self.paths@,
            res.modes@ == self.modes@,
    {
        let mut paths: Vec<CcdPath> = Vec::new();
        for i in 0..self.paths.len()
            invariant
                paths@ == self.paths@.subrange(0, i as int),
        {
            paths.push(self.paths[i]);
        }
        let mut modes: Vec<CcdMode> = Vec::new();
        for i in 0..self.modes.len()
            invariant
                modes@ == self.modes@.subrange(0, i as int),
        {
            modes.push(self.modes[i]);
        }
        proof {
            assert(paths@ =~= self.paths@);
            assert(modes@ =~= self.modes@);
        }
        CcdRawData { paths, modes }
    }
}

/// Standard CCD device-info header identifying the target adapter and
/// display.
#[derive(Debug, Clone, Copy, PartialEq, Eq, Structural)]
pub struct DeviceInfoHeader {
    /// Device-info type.
    pub info_type: i32,
    /// Size of the whole payload in bytes.
    pub size: u32,
    /// Low part of the adapter LUID.
    pub adapter_low: u32,
    /// High part of the adapter LUID.
    pub adapter_high: i32,
    /// Target identifier.
    pub id: u32,
}

/// Payload for `DisplayConfigSetDeviceInfo` HDR state changes.
#[allow(non_camel_case_types)]
#[derive(Debug, Clone, Copy, PartialEq, Eq, Structural)]
pub struct DISPLAYCONFIG_SET_HDR_STATE {
    /// Standard CCD device info header identifying the target adapter and display.
    pub header: DeviceInfoHeader,
    /// HDR state: `0` = disabled, `1` = enabled.
    pub enabled: u32,
}

/// Payload for `DisplayConfigSetDeviceInfo` DPI scale changes.
#[allow(non_camel_case_types)]
#[derive(Debug, Clone, Copy, PartialEq, Eq, Structural)]
pub struct DISPLAYCONFIG_SOURCE_DPI_SCALE_SET {
    /// Standard CCD device info header identifying the target adapter and display.
    pub header: DeviceInfoHeader,
    /// Target DPI scale as a percentage (e.g., 100, 125, 150).
    pub scale_factor_as_percent: i32,
}

/// One `DisplayConfigSetDeviceInfo` call.
#[derive(Debug, Clone, Copy, PartialEq, Eq, Structural)]
pub enum DeviceInfoRequest {
    /// Set the DPI scale of a target.
    Scale(DISPLAYCONFIG_SOURCE_DPI_SCALE_SET),
    /// Switch HDR on or off on a target.
    Hdr(DISPLAYCONFIG_SET_HDR_STATE),
}

/// The DPI payload for the target of `path`.
pub open spec fn scale_payload(path: CcdPath, percent: i32) -> DISPLAYCONFIG_SOURCE_DPI_SCALE_SET {
    DISPLAYCONFIG_SOURCE_DPI_SCALE_SET {
        header: DeviceInfoHeader {
            info_type: DISPLAYCONFIG_DEVICE_INFO_SET_DPI_SCALE,
            size: DEVICE_INFO_PAYLOAD_SIZE,
            adapter_low: path.adapter_low,
            adapter_high: path.adapter_high,
            id: path.target_id,
        },
        scale_factor_as_percent: percent,
    }
}

/// The HDR payload for the target of `path`.
pub open spec fn hdr_payload(path: CcdPath, enabled: bool) -> DISPLAYCONFIG_SET_HDR_STATE {
    DISPLAYCONFIG_SET_HDR_STATE {
        header: DeviceInfoHeader {
            info_type: DISPLAYCONFIG_DEVICE_INFO_SET_HDR_STATE,
            size: DEVICE_INFO_PAYLOAD_SIZE,
            adapter_low: path.adapter_low,
            adapter_high: path.adapter_high,
            id: path.target_id,
        },
        enabled: if enabled { 1 } else { 0 },
    }
}

/// Builds the DPI payload for the target of `path`.
pub fn make_scale_payload(path: &CcdPath, percent: i32) -> (res: DISPLAYCONFIG_SOURCE_DPI_SCALE_SET)
    ensures
        res == scale_payload(*path, percent),
{
    DISPLAYCONFIG_SOURCE_DPI_SCALE_SET {
        header: DeviceInfoHeader {
            info_type: DISPLAYCONFIG_DEVICE_INFO_SET_DPI_SCALE,
            size: DEVICE_INFO_PAYLOAD_SIZE,
            adapter_low: path.adapter_low,
            adapter_high: path.adapter_high,
            id: path.target_id,
        },
        scale_factor_as_percent: percent,
    }
}

/// Builds the HDR payload for the target of `path`.
pub fn make_hdr_payload(path: &CcdPath, enabled: bool) -> (res: DISPLAYCONFIG_SET_HDR_STATE)
    ensures
        res == hdr_payload(*path, enabled),
{
    DISPLAYCONFIG_SET_HDR_STATE {
        header: DeviceInfoHeader {
            info_type: DISPLAYCONFIG_DEVICE_INFO_SET_HDR_STATE,
            size: DEVICE_INFO_PAYLOAD_SIZE,
            adapter_low: path.adapter_low,
            adapter_high: path.adapter_high,
            id: path.target_id,
        },
        enabled: if enabled { 1 } else { 0 },
    }
}

/// The scale percentage a DPI payload carries: the staged percentage, capped
/// at the largest value the payload field holds.
pub open spec fn payload_percent(p: u32) -> i32 {
    if p > i32::MAX as u32 { i32::MAX } else { p as i32 }
}

/// Converts a staged percentage to the payload field.
pub fn to_payload_percent(p: u32) -> (res: i32)
    ensures
        res == payload_percent(p),
{
    if p > 0x7fff_ffff {
        0x7fff_ffff
    } else {
        p as i32
    }
}

} // verus!
