use vstd::prelude::*;
use vstd::string::StringExecFns;

verus! {

/// Strongly-typed wrapper for a unique display output identifier.
///
/// Maps directly to operating system handle designations like GDI DeviceName,
/// CCD Target ID, or Wayland Output Name.
#[derive(Debug, PartialEq, Eq, PartialOrd, Ord, Hash)]
pub struct DisplayId(pub String);

/// Strongly-typed wrapper for physical connector port designations
/// (e.g., `"DP-1"`, `"HDMI-A-1"`).
#[derive(Debug, PartialEq, Eq, PartialOrd, Ord, Hash)]
pub struct ConnectorId(pub String);

/// Strongly-typed wrapper for the underlying GPU / adapter handle.
#[derive(Debug, PartialEq, Eq, PartialOrd, Ord, Hash)]
pub struct AdapterId(pub String);

impl View for DisplayId {
    type V = Seq<char>;

    open spec fn view(&self) -> Seq<char> {
        self.0@
    }
}

impl View for ConnectorId {
    type V = Seq<char>;

    open spec fn view(&self) -> Seq<char> {
        self.0@
    }
}

impl View for AdapterId {
    type V = Seq<char>;

    open spec fn view(&self) -> Seq<char> {
        self.0@
    }
}

impl Clone for DisplayId {
    fn clone(&self) -> (res: Self)
        ensures
            res == *self,
    {
        DisplayId(self.0.clone())
    }
}

impl Clone for ConnectorId {
    fn clone(&self) -> (res: Self)
        ensures
            res == *self,
    {
        ConnectorId(self.0.clone())
    }
}

impl Clone for AdapterId {
    fn clone(&self) -> (res: Self)
        ensures
            res == *self,
    {
        AdapterId(self.0.clone())
    }
}

impl Default for DisplayId {
    fn default() -> (res: Self)
        ensures
            res@ == Seq::<char>::empty(),
    {
        DisplayId(String::new())
    }
}

impl Default for ConnectorId {
    fn default() -> (res: Self)
        ensures
            res@ == Seq::<char>::empty(),
    {
        ConnectorId(String::new())
    }
}

impl Default for AdapterId {
    fn default() -> (res: Self)
        ensures
            res@ == Seq::<char>::empty(),
    {
        AdapterId(String::new())
    }
}

impl DisplayId {
    /// The textual form of the identifier (what `Display` prints).
    pub fn to_string(&self) -> (res: String)
        ensures
            res@ == self@,
    {
        self.0.clone()
    }

    /// Whether two identifiers name the same output.
    pub fn same_as(&self, other: &DisplayId) -> (res: bool)
        ensures
            res == (self@ == other@),
    {
        self.0 == other.0
    }
}

impl ConnectorId {
    /// The textual form of the identifier (what `Display` prints).
    pub fn to_string(&self) -> (res: String)
        ensures
            res@ == self@,
    {
        self.0.clone()
    }
}

impl AdapterId {
    /// The textual form of the identifier (what `Display` prints).
    pub fn to_string(&self) -> (res: String)
        ensures
            res@ == self@,
    {
        self.0.clone()
    }
}

/// Hardware identity descriptor containing immutable hardware properties
/// and persistent session tokens.
#[derive(Debug, PartialEq, Eq)]
pub struct DisplayIdentity {
    /// Token representing the dynamic target handle assigned by the active OS session.
    pub id: DisplayId,
    /// System designation string for the underlying physical connection port.
    pub connector_id: ConnectorId,
    /// Identifier for the specific graphics card powering this display output.
    pub adapter_id: AdapterId,
    /// Persistent EDID serial number or hardware UUID if queryable.
    pub hardware_uuid: Option<String>,
    /// Human-readable model or brand string supplied by the hardware EDID block.
    pub monitor_name: String,
}

/// Copies an optional string, keeping its value.
pub fn clone_opt_string(s: &Option<String>) -> (res: Option<String>)
    ensures
        res == *s,
{
    match s {
        Some(t) => Some(t.clone()),
        None => None,
    }
}

impl Clone for DisplayIdentity {
    fn clone(&self) -> (res: Self)
        ensures
            res == *self,
    {
        DisplayIdentity {
            id: self.id.clone(),
            connector_id: self.connector_id.clone(),
            adapter_id: self.adapter_id.clone(),
            hardware_uuid: clone_opt_string(&self.hardware_uuid),
            monitor_name: self.monitor_name.clone(),
        }
    }
}

/// Represents the physical rotation of a screen.
/// These values map directly to standard OS rotation flags.
#[derive(Debug, Clone, Copy, PartialEq, Eq, Structural)]
pub enum DisplayRotation {
    /// Normal landscape orientation.
    Rotate0,
    /// Portrait orientation (rotated 90 degrees clockwise).
    Rotate90,
    /// Inverted landscape (rotated 180 degrees).
    Rotate180,
    /// Inverted portrait (rotated 270 degrees clockwise).
    Rotate270,
}

impl Default for DisplayRotation {
    fn default() -> (res: Self)
        ensures
            res == DisplayRotation::Rotate0,
    {
        DisplayRotation::Rotate0
    }
}

/// Operational status of High Dynamic Range (HDR) functionality.
#[derive(Debug, Clone, Copy, PartialEq, Eq, Structural)]
pub enum HdrState {
    /// HDR is active and the monitor is receiving an HDR signal.
    Enabled,
    /// HDR is inactive; the monitor is in Standard Dynamic Range (SDR).
    Disabled,
}

impl Default for HdrState {
    fn default() -> (res: Self)
        ensures
            res == HdrState::Disabled,
    {
        HdrState::Disabled
    }
}

/// Defines specific HDR metadata profiles or usage modes.
#[derive(Debug, Clone, Copy, PartialEq, Eq, Structural)]
pub enum HdrMode {
    /// Default system-defined HDR profile.
    Default,
    /// Optimized for high-contrast cinematic content.
    Cinema,
    /// Optimized for low-latency, high-brightness gaming content.
    Game,
}

impl Default for HdrMode {
    fn default() -> (res: Self)
        ensures
            res == HdrMode::Default,
    {
        HdrMode::Default
    }
}

/// Represents a 2D vector for display positioning within the virtual desktop
/// coordinate system.
#[derive(Debug, Clone, Copy, PartialEq, Eq, Structural)]
pub struct Point2D {
    /// Horizontal coordinate. Positive values extend to the right.
    pub x: i32,
    /// Vertical coordinate. Positive values extend downwards.
    pub y: i32,
}

impl Default for Point2D {
    fn default() -> (res: Self)
        ensures
            res == (Point2D { x: 0, y: 0 }),
    {
        Point2D { x: 0, y: 0 }
    }
}

/// Represents the physical or virtual spatial dimensions of a display target.
#[derive(Debug, Clone, Copy, PartialEq, Eq, Structural)]
pub struct Extent2D {
    /// Width in pixels.
    pub width: u32,
    /// Height in pixels.
    pub height: u32,
}

impl Default for Extent2D {
    fn default() -> (res: Self)
        ensures
            res == (Extent2D { width: 0, height: 0 }),
    {
        Extent2D { width: 0, height: 0 }
    }
}

/// A combined spatial structure representing the boundary layout of an output
/// in virtual space.
#[derive(Debug, Clone, Copy, PartialEq, Eq, Structural)]
pub struct Rect {
    /// Top-left starting coordinate of the display.
    pub origin: Point2D,
    /// Spatial sizing dimensions of the display.
    pub size: Extent2D,
}

impl Default for Rect {
    fn default() -> (res: Self)
        ensures
            res == (Rect { origin: Point2D { x: 0, y: 0 }, size: Extent2D { width: 0, height: 0 } }),
    {
        Rect { origin: Point2D::default(), size: Extent2D::default() }
    }
}

/// Combines physical layout properties into an explicit, hardware-supported
/// configuration mode.
#[derive(Debug, Clone, Copy, PartialEq, Eq, Structural)]
pub struct VideoMode {
    /// Resolution dimensions of this specific mode.
    pub resolution: Extent2D,
    /// Refresh rate in millihertz (mHz). Divide by 1000 for Hz.
    pub refresh_rate: u32,
}

impl Default for VideoMode {
    fn default() -> (res: Self)
        ensures
            res == (VideoMode { resolution: Extent2D { width: 0, height: 0 }, refresh_rate: 0 }),
    {
        VideoMode { resolution: Extent2D::default(), refresh_rate: 0 }
    }
}

/// Copies a list of video modes element by element.
pub fn copy_modes(modes: &Vec<VideoMode>) -> (res: Vec<VideoMode>)
    ensures
        res@ == modes@,
{
    let mut res: Vec<VideoMode> = Vec::new();
    let n = modes.len();
    for i in 0..n
        invariant
            n == modes.len(),
            res@ == modes@.subrange(0, i as int),
    {
        res.push(modes[i]);
    }
    assert(res@ =~= modes@);
    res
}

/// A comprehensive snapshot of a display output's current configuration.
/// Used both to report state and to stage changes.
#[derive(Debug, PartialEq)]
pub struct OutputState {
    /// Complete structural identity profile for hardware mapping.
    pub identity: DisplayIdentity,
    /// Explicit spatial positioning and layout details within the virtual desktop.
    pub geometry: Rect,
    /// Refresh rate in millihertz (mHz). Divide by 1000 for Hz.
    pub refresh_rate: u32,
    /// Current screen orientation.
    pub rotation: DisplayRotation,
    /// Whether HDR is currently active.
    pub hdr_state: HdrState,
    /// The active HDR profile (if applicable).
    pub hdr_mode: HdrMode,
    /// Desktop scaling factor in percent (e.g., 150 for 150%).
    pub scale_percent: u32,
    /// Native resolution of the panel if detectable, otherwise None.
    pub native_resolution: Option<Extent2D>,
    /// List of all distinct valid hardware modes supported by this panel.
    pub supported_modes: Vec<VideoMode>,
    /// Indicates if the output is active and receiving a signal.
    pub enabled: bool,
    /// Indicates if this display is the primary desktop baseline (0,0 origin).
    pub is_primary: bool,
}

/// The mathematical value of an [`OutputState`]: every field by its value.
pub struct OutputStateView {
    pub id: Seq<char>,
    pub connector_id: Seq<char>,
    pub adapter_id: Seq<char>,
    pub hardware_uuid: Option<String>,
    pub monitor_name: Seq<char>,
    pub geometry: Rect,
    pub refresh_rate: u32,
    pub rotation: DisplayRotation,
    pub hdr_state: HdrState,
    pub hdr_mode: HdrMode,
    pub scale_percent: u32,
    pub native_resolution: Option<Extent2D>,
    pub supported_modes: Seq<VideoMode>,
    pub enabled: bool,
    pub is_primary: bool,
}

impl View for OutputState {
    type V = OutputStateView;

    open spec fn view(&self) -> OutputStateView {
        OutputStateView {
            id: self.identity.id@,
            connector_id: self.identity.connector_id@,
            adapter_id: self.identity.adapter_id@,
            hardware_uuid: self.identity.hardware_uuid,
            monitor_name: self.identity.monitor_name@,
            geometry: self.geometry,
            refresh_rate: self.refresh_rate,
            rotation: self.rotation,
            hdr_state: self.hdr_state,
            hdr_mode: self.hdr_mode,
            scale_percent: self.scale_percent,
            native_resolution: self.native_resolution,
            supported_modes: self.supported_modes@,
            enabled: self.enabled,
            is_primary: self.is_primary,
        }
    }
}

impl Clone for OutputState {
    fn clone(&self) -> (res: Self)
        ensures
            res@ == self@,
            res.identity == self.identity,
    {
        OutputState {
            identity: self.identity.clone(),
            geometry: self.geometry,
            refresh_rate: self.refresh_rate,
            rotation: self.rotation,
            hdr_state: self.hdr_state,
            hdr_mode: self.hdr_mode,
            scale_percent: self.scale_percent,
            native_resolution: self.native_resolution,
            supported_modes: copy_modes(&self.supported_modes),
            enabled: self.enabled,
            is_primary: self.is_primary,
        }
    }
}

/// Whether an output of the given size and rotation presents a pixel area
/// that is at least as wide as it is tall.
pub open spec fn landscape_spec(size: Extent2D, rotation: DisplayRotation) -> bool {
    match rotation {
        DisplayRotation::Rotate0 | DisplayRotation::Rotate180 => size.width >= size.height,
        DisplayRotation::Rotate90 | DisplayRotation::Rotate270 => size.height >= size.width,
    }
}

/// The name that a freshly defaulted output carries.
pub open spec fn unknown_display_name() -> Seq<char> {
    seq!['U', 'n', 'k', 'n', 'o', 'w', 'n', ' ', 'D', 'i', 's', 'p', 'l', 'a', 'y']
}

/// Whether `s` is the value of [`OutputState::default`].
pub open spec fn is_default_output(s: OutputStateView) -> bool {
    &&& s.id == Seq::<char>::empty()
    &&& s.connector_id == Seq::<char>::empty()
    &&& s.adapter_id == Seq::<char>::empty()
    &&& s.hardware_uuid is None
    &&& s.monitor_name == unknown_display_name()
    &&& s.geometry == (Rect { origin: Point2D { x: 0, y: 0 }, size: Extent2D { width: 0, height: 0 } })
    &&& s.refresh_rate == 0
    &&& s.rotation == DisplayRotation::Rotate0
    &&& s.hdr_state == HdrState::Disabled
    &&& s.hdr_mode == HdrMode::Default
    &&& s.scale_percent == 100
    &&& s.native_resolution is None
    &&& s.supported_modes == Seq::<VideoMode>::empty()
    &&& !s.enabled
    &&& !s.is_primary
}

impl OutputState {
    /// Returns true if the active pixel area is wider than it is tall,
    /// accounting for rotation.
    pub fn is_landscape(&self) -> (res: bool)
        ensures
            res == landscape_spec(self.geometry.size, self.rotation),
    {
        match self.rotation {
            DisplayRotation::Rotate0 | DisplayRotation::Rotate180 => {
                self.geometry.size.width >= self.geometry.size.height
            },
            DisplayRotation::Rotate90 | DisplayRotation::Rotate270 => {
                self.geometry.size.height >= self.geometry.size.width
            },
        }
    }
}

impl Default for OutputState {
    fn default() -> (res: Self)
        ensures
            is_default_output(res@),
    {
        let name = String::from_str("Unknown Display");
        proof {
            reveal_strlit("Unknown Display");
        }
        assert(name@ =~= unknown_display_name());
        OutputState {
            identity: DisplayIdentity {
                id: DisplayId(String::new()),
                connector_id: ConnectorId(String::new()),
                adapter_id: AdapterId(String::new()),
                hardware_uuid: None,
                monitor_name: name,
            },
            geometry: Rect::default(),
            refresh_rate: 0,
            rotation: DisplayRotation::Rotate0,
            hdr_state: HdrState::Disabled,
            hdr_mode: HdrMode::Default,
            scale_percent: 100,
            native_resolution: None,
            supported_modes: Vec::new(),
            enabled: false,
            is_primary: false,
        }
    }
}

/// Plan for activating a previously inactive monitor.
/// Used with the topology-restoring activation sequence.
#[derive(Debug, Clone, Copy, PartialEq, Eq, Structural)]
pub struct ActivationPlan {
    /// Target position (x, y). If None, auto-positions right of rightmost active monitor.
    pub position: Option<Point2D>,
    /// Target resolution (width, height). If None, keeps hardware default.
    pub resolution: Option<Extent2D>,
    /// Target rotation. If None, keeps current rotation.
    pub rotation: Option<DisplayRotation>,
}

impl Default for ActivationPlan {
    fn default() -> (res: Self)
        ensures
            res.position is None,
            res.resolution is None,
            res.rotation is None,
    {
        ActivationPlan { position: None, resolution: None, rotation: None }
    }
}

} // verus!
