//! Generic Linux udev backend for display management.
//!
//! Outputs enumerated from sysfs are kept here as plain state; edits are
//! staged on that state. HDR needs compositor cooperation and is refused, and
//! a commit needs DRM privileges that this backend does not hold.
use vstd::prelude::*;
use vstd::string::StringExecFns;

use crate::backends::overlap::{check_overlap, has_overlap, OverlapCheckable};
use crate::error::{DisplayError, DisplayResult};
use crate::traits::{first_from, first_index, lemma_first_index, view_reflects, OutputEdit};
use crate::types::{
    copy_modes, AdapterId, ConnectorId, DisplayId, DisplayIdentity, DisplayRotation, HdrMode,
    HdrState, OutputState, OutputStateView, Rect, VideoMode,
};

verus! {

/// Internal tracking state for a udev-discovered display output.
#[derive(Debug)]
pub struct UdevOutputState {
    /// Unique display identifier.
    pub id: DisplayId,
    /// Connector name (e.g., `"HDMI-1"`, `"DP-2"`).
    pub connector_id: ConnectorId,
    /// Adapter identifier.
    pub adapter_id: AdapterId,
    /// Spatial layout in the virtual desktop.
    pub geometry: Rect,
    /// Refresh rate in millihertz.
    pub refresh_rate: u32,
    /// Scale factor in percent.
    pub scale_percent: u32,
    /// Current rotation.
    pub rotation: DisplayRotation,
    /// Whether the output is enabled.
    pub enabled: bool,
    /// Whether this is the primary output.
    pub is_primary: bool,
    /// Supported video modes populated from DRM connector properties.
    pub supported_modes: Vec<VideoMode>,
}

impl OverlapCheckable for UdevOutputState {
    open spec fn enabled_spec(&self) -> bool {
        self.enabled
    }

    open spec fn geometry_spec(&self) -> Rect {
        self.geometry
    }

    fn is_enabled(&self) -> (res: bool) {
        self.enabled
    }

    fn geometry(&self) -> (res: Rect) {
        self.geometry
    }
}

/// Generic Linux udev display topology.
#[derive(Debug)]
pub struct UdevTopology {
    /// Snapshot of all discovered outputs.
    pub outputs: Vec<UdevOutputState>,
    /// Whether changes should be persisted across sessions.
    pub persistence_enabled: bool,
    /// Whether any output has been modified since the last commit.
    pub dirty: bool,
}

/// The value of a [`UdevTopology`].
pub struct UdevTopologyView {
    pub outputs: Seq<UdevOutputState>,
    pub persistence_enabled: bool,
    pub dirty: bool,
}

impl View for UdevTopology {
    type V = UdevTopologyView;

    open spec fn view(&self) -> UdevTopologyView {
        UdevTopologyView {
            outputs: self.outputs@,
            persistence_enabled: self.persistence_enabled,
            dirty: self.dirty,
        }
    }
}

/// The identifiers of the outputs, in order.
pub open spec fn udev_ids(outputs: Seq<UdevOutputState>) -> Seq<Seq<char>> {
    outputs.map_values(|o: UdevOutputState| o.id@)
}

/// The monitor name udev outputs are reported under.
pub open spec fn udev_monitor_name(connector: Seq<char>) -> Seq<char> {
    "udev Output ("@ + connector + ")"@
}

/// How a udev output is reported as an [`OutputState`].
pub open spec fn udev_output_view(o: UdevOutputState) -> OutputStateView {
    OutputStateView {
        id: o.id@,
        connector_id: o.connector_id@,
        adapter_id: o.adapter_id@,
        hardware_uuid: None,
        monitor_name: udev_monitor_name(o.connector_id@),
        geometry: o.geometry,
        refresh_rate: o.refresh_rate,
        rotation: o.rotation,
        hdr_state: HdrState::Disabled,
        hdr_mode: HdrMode::Default,
        scale_percent: o.scale_percent,
        native_resolution: Some(o.geometry.size),
        supported_modes: o.supported_modes@,
        enabled: o.enabled,
        is_primary: o.is_primary,
    }
}

/// An edit of a single field of one output: the new output, and whether the
/// field actually changed.
pub open spec fn udev_field_edit(o: UdevOutputState, e: OutputEdit) -> (UdevOutputState, bool) {
    match e {
        OutputEdit::Rotation(r) => (UdevOutputState { rotation: r, ..o }, o.rotation != r),
        OutputEdit::Resolution(x) => (
            UdevOutputState { geometry: Rect { size: x, ..o.geometry }, ..o },
            o.geometry.size != x,
        ),
        OutputEdit::Position(p) => (
            UdevOutputState { geometry: Rect { origin: p, ..o.geometry }, ..o },
            o.geometry.origin != p,
        ),
        OutputEdit::RefreshRate(r) => (UdevOutputState { refresh_rate: r, ..o }, o.refresh_rate != r),
        OutputEdit::Scale(s) => (UdevOutputState { scale_percent: s, ..o }, o.scale_percent != s),
        OutputEdit::Enabled(b) => (UdevOutputState { enabled: b, ..o }, o.enabled != b),
        _ => (o, false),
    }
}

/// The outputs with every primary flag cleared.
pub open spec fn udev_clear_primary(outputs: Seq<UdevOutputState>) -> Seq<UdevOutputState> {
    Seq::new(outputs.len(), |j: int| UdevOutputState { is_primary: false, ..outputs[j] })
}

/// The effect of staging `e`, any edit but HDR, on the output named `target`:
/// the new topology and the result the editor reports.
pub open spec fn udev_staged_edit(t: UdevTopologyView, target: DisplayId, e: OutputEdit) -> (
    UdevTopologyView,
    DisplayResult<()>,
) {
    let ids = udev_ids(t.outputs);
    match e {
        OutputEdit::Primary => {
            let cleared = udev_clear_primary(t.outputs);
            match first_index(ids, target@) {
                None => (UdevTopologyView { outputs: cleared, ..t }, Err(DisplayError::NotFound(target))),
                Some(k) => (
                    UdevTopologyView {
                        outputs: cleared.update(k, UdevOutputState { is_primary: true, ..cleared[k] }),
                        dirty: true,
                        ..t
                    },
                    Ok(()),
                ),
            }
        },
        OutputEdit::CloneFrom(source) => match first_index(ids, source@) {
            None => (t, Err(DisplayError::NotFound(source))),
            Some(s) => match first_index(ids, target@) {
                None => (t, Err(DisplayError::NotFound(target))),
                Some(k) => {
                    let src = t.outputs[s];
                    let dst = UdevOutputState {
                        geometry: src.geometry,
                        refresh_rate: src.refresh_rate,
                        scale_percent: src.scale_percent,
                        rotation: src.rotation,
                        ..t.outputs[k]
                    };
                    (UdevTopologyView { outputs: t.outputs.update(k, dst), dirty: true, ..t }, Ok(()))
                },
            },
        },
        _ => match first_index(ids, target@) {
            None => (t, Err(DisplayError::NotFound(target))),
            Some(k) => {
                let (o, changed) = udev_field_edit(t.outputs[k], e);
                (
                    UdevTopologyView { outputs: t.outputs.update(k, o), dirty: t.dirty || changed, ..t },
                    Ok(()),
                )
            },
        },
    }
}

/// The refusal this backend answers an HDR edit with.
pub open spec fn udev_hdr_refusal(e: DisplayError) -> bool {
    e matches DisplayError::UnsupportedFeature(s)
        && s@ == "HDR control requires a Wayland compositor or KDE Plasma environment"@
}

/// The effect of staging `e` on the output named `target`, the new topology
/// and the result the editor reports: HDR edits are refused and change
/// nothing, every other edit is [`udev_staged_edit`].
pub open spec fn udev_edit_outcome(
    t: UdevTopologyView,
    target: DisplayId,
    e: OutputEdit,
    t2: UdevTopologyView,
    r: DisplayResult<()>,
) -> bool {
    if e is Hdr {
        &&& t2 == t
        &&& r matches Err(err) && udev_hdr_refusal(err)
    } else {
        (t2, r) == udev_staged_edit(t, target, e)
    }
}

fn udev_hdr_refusal_text() -> (res: String)
    ensures
        udev_hdr_refusal(DisplayError::UnsupportedFeature(res)),
{
    String::from_str("HDR control requires a Wayland compositor or KDE Plasma environment")
}

impl UdevTopology {
    /// Initialises an empty operational state, as KScreen enumeration fills
    /// it in a live session.
    pub fn acquire() -> (res: DisplayResult<Self>)
        ensures
            res matches Ok(t) && t@.outputs.len() == 0 && !t@.persistence_enabled && !t@.dirty,
    {
        Ok(UdevTopology { outputs: Vec::new(), persistence_enabled: false, dirty: false })
    }

    /// Position of the first output named `id`.
    pub fn find(&self, id: &DisplayId) -> (res: Option<usize>)
        ensures
            match res {
                Some(k) => first_index(udev_ids(self.outputs@), id@) == Some(k as int)
                    && k < self.outputs@.len(),
                None => first_index(udev_ids(self.outputs@), id@) is None,
            },
    {
        let n = self.outputs.len();
        let ghost ids = udev_ids(self.outputs@);
        let mut i: usize = 0;
        while i < n
            invariant
                n == self.outputs@.len(),
                ids == udev_ids(self.outputs@),
                i <= n,
                first_index(ids, id@) == first_from(ids, id@, i as int),
            decreases n - i,
        {
            if self.outputs[i].id.same_as(id) {
                return Some(i);
            }
            i = i + 1;
        }
        None
    }

    /// Returns every output, reported as an [`OutputState`].
    pub fn get_outputs(&self) -> (res: Vec<OutputState>)
        ensures
            res@.len() == self.outputs@.len(),
            forall|j: int| 0 <= j < res@.len() ==> #[trigger] res@[j]@ == udev_output_view(self.outputs@[j]),
    {
        let mut res: Vec<OutputState> = Vec::new();
        let n = self.outputs.len();
        for i in 0..n
            invariant
                n == self.outputs@.len(),
                res@.len() == i,
                forall|j: int| 0 <= j < i ==> #[trigger] res@[j]@ == udev_output_view(self.outputs@[j]),
        {
            res.push(udev_report(&self.outputs[i]));
        }
        res
    }

    /// Snapshot of the configuration of the output named `id`, or the default
    /// output state when there is none.
    pub fn get_state(&self, id: &DisplayId) -> (res: OutputState)
        ensures
            match first_index(udev_ids(self.outputs@), id@) {
                Some(k) => res@ == udev_output_view(self.outputs@[k]),
                None => crate::types::is_default_output(res@),
            },
    {
        match self.find(id) {
            Some(k) => udev_report(&self.outputs[k]),
            None => OutputState::default(),
        }
    }

    /// Checks that an editor can be opened on the output named `id`.
    pub fn edit_output(&self, id: &DisplayId) -> (res: DisplayResult<()>)
        ensures
            res is Ok <==> first_index(udev_ids(self.outputs@), id@) is Some,
            res is Err ==> res == Err::<(), DisplayError>(DisplayError::NotFound(*id)),
    {
        match self.find(id) {
            Some(_) => Ok(()),
            None => Err(DisplayError::NotFound(id.clone())),
        }
    }

    /// Toggles persistence of configuration changes.
    pub fn set_persistence(&mut self, enabled: bool)
        ensures
            final(self)@ == (UdevTopologyView { persistence_enabled: enabled, ..old(self)@ }),
    {
        self.persistence_enabled = enabled;
    }

    /// Stages `edit` on the output named `target`.
    pub fn apply_edit(&mut self, target: &DisplayId, edit: &OutputEdit) -> (res: DisplayResult<()>)
        ensures
            udev_edit_outcome(old(self)@, *target, *edit, final(self)@, res),
    {
        match edit {
            OutputEdit::Primary => {
                self.clear_primary();
                assert(udev_ids(self.outputs@) =~= udev_ids(old(self).outputs@));
                match self.find(target) {
                    None => Err(DisplayError::NotFound(target.clone())),
                    Some(k) => {
                        self.outputs[k].is_primary = true;
                        self.dirty = true;
                        Ok(())
                    },
                }
            },
            OutputEdit::Hdr(_, _) => {
                // HDR requires compositor-level cooperation (color-management-v1);
                // this backend operates at the kernel level and cannot control it.
                Err(DisplayError::UnsupportedFeature(udev_hdr_refusal_text()))
            },
            OutputEdit::CloneFrom(source) => {
                match self.find(source) {
                    None => Err(DisplayError::NotFound(source.clone())),
                    Some(s) => match self.find(target) {
                        None => Err(DisplayError::NotFound(target.clone())),
                        Some(k) => {
                            let geometry = self.outputs[s].geometry;
                            let refresh_rate = self.outputs[s].refresh_rate;
                            let scale_percent = self.outputs[s].scale_percent;
                            let rotation = self.outputs[s].rotation;
                            self.outputs[k].geometry = geometry;
                            self.outputs[k].refresh_rate = refresh_rate;
                            self.outputs[k].scale_percent = scale_percent;
                            self.outputs[k].rotation = rotation;
                            self.dirty = true;
                            assert(self.outputs@ =~= udev_staged_edit(old(self)@, *target, *edit).0.outputs);
                            Ok(())
                        },
                    },
                }
            },
            _ => match self.find(target) {
                None => Err(DisplayError::NotFound(target.clone())),
                Some(k) => {
                    let changed = self.edit_field(k, edit);
                    if changed {
                        self.dirty = true;
                    }
                    Ok(())
                },
            },
        }
    }

    fn clear_primary(&mut self)
        ensures
            final(self)@ == (UdevTopologyView { outputs: udev_clear_primary(old(self)@.outputs), ..old(self)@ }),
    {
        let n = self.outputs.len();
        for i in 0..n
            invariant
                n == self.outputs@.len(),
                n == old(self).outputs@.len(),
                self.persistence_enabled == old(self).persistence_enabled,
                self.dirty == old(self).dirty,
                forall|j: int| 0 <= j < i ==> self.outputs@[j] == (UdevOutputState { is_primary: false, ..old(self).outputs@[j] }),
                forall|j: int| i <= j < n ==> self.outputs@[j] == old(self).outputs@[j],
        {
            self.outputs[i].is_primary = false;
        }
        assert(self.outputs@ =~= udev_clear_primary(old(self)@.outputs));
    }

    fn edit_field(&mut self, k: usize, edit: &OutputEdit) -> (changed: bool)
        requires
            k < old(self).outputs@.len(),
        ensures
            (final(self).outputs@[k as int], changed) == udev_field_edit(old(self).outputs@[k as int], *edit),
            final(self).outputs@ == old(self).outputs@.update(k as int, final(self).outputs@[k as int]),
            final(self).persistence_enabled == old(self).persistence_enabled,
            final(self).dirty == old(self).dirty,
    {
        let out = &mut self.outputs[k];
        match edit {
            OutputEdit::Rotation(r) => {
                let changed = out.rotation != *r;
                out.rotation = *r;
                changed
            },
            OutputEdit::Resolution(x) => {
                let changed = out.geometry.size != *x;
                out.geometry.size = *x;
                changed
            },
            OutputEdit::Position(p) => {
                let changed = out.geometry.origin != *p;
                out.geometry.origin = *p;
                changed
            },
            OutputEdit::RefreshRate(r) => {
                let changed = out.refresh_rate != *r;
                out.refresh_rate = *r;
                changed
            },
            OutputEdit::Scale(s) => {
                let changed = out.scale_percent != *s;
                out.scale_percent = *s;
                changed
            },
            OutputEdit::Enabled(b) => {
                let changed = out.enabled != *b;
                out.enabled = *b;
                changed
            },
            _ => false,
        }
    }

    /// Validates the staged layout: no two enabled outputs may overlap.
    pub fn validate(&self) -> (res: DisplayResult<()>)
        ensures
            res is Ok <==> !has_overlap(self.outputs@),
            res is Err ==> res->Err_0 is ConfigurationRejected,
    {
        check_overlap(self.outputs.as_slice())
    }

    /// Flushes the staged changes: a clean topology has nothing to do; a
    /// dirty one is validated first, and a valid one is refused for want of
    /// the privileges that DRM mode-setting needs.
    pub fn commit(&mut self) -> (res: DisplayResult<()>)
        ensures
            final(self)@ == old(self)@,
            !old(self)@.dirty ==> res is Ok,
            old(self)@.dirty && has_overlap(old(self)@.outputs) ==> res matches Err(
                DisplayError::ConfigurationRejected,
            ),
            old(self)@.dirty && !has_overlap(old(self)@.outputs) ==> res matches Err(
                DisplayError::PermissionDenied,
            ),
    {
        if !self.dirty {
            return Ok(());
        }
        match self.validate() {
            Err(e) => Err(e),
            Ok(()) => Err(DisplayError::PermissionDenied),
        }
    }
}

/// Reports one udev output as an [`OutputState`].
pub fn udev_report(o: &UdevOutputState) -> (res: OutputState)
    ensures
        res@ == udev_output_view(*o),
{
    let name = String::from_str("udev Output (").concat(o.connector_id.0.as_str()).concat(")");
    OutputState {
        identity: DisplayIdentity {
            id: o.id.clone(),
            connector_id: o.connector_id.clone(),
            adapter_id: o.adapter_id.clone(),
            hardware_uuid: None,
            monitor_name: name,
        },
        geometry: o.geometry,
        refresh_rate: o.refresh_rate,
        rotation: o.rotation,
        hdr_state: HdrState::Disabled,
        hdr_mode: HdrMode::Default,
        scale_percent: o.scale_percent,
        native_resolution: Some(o.geometry.size),
        supported_modes: copy_modes(&o.supported_modes),
        enabled: o.enabled,
        is_primary: o.is_primary,
    }
}

/// Staging an edit never changes which outputs the topology holds: the same
/// identifiers in the same order, and the persistence setting, stay.
pub proof fn lemma_udev_staged_edit_keeps_outputs(t: UdevTopologyView, target: DisplayId, e: OutputEdit)
    ensures
        udev_ids(udev_staged_edit(t, target, e).0.outputs) == udev_ids(t.outputs),
        udev_staged_edit(t, target, e).0.persistence_enabled == t.persistence_enabled,
{
    lemma_first_index(udev_ids(t.outputs), target@);
    if let OutputEdit::CloneFrom(s) = e {
        lemma_first_index(udev_ids(t.outputs), s@);
    }
    let t2 = udev_staged_edit(t, target, e).0;
    assert(udev_ids(t2.outputs) =~= udev_ids(t.outputs));
}

/// A staged edit that succeeds is visible in the reported state of the output
/// it names (read after write), and no other output changes, except that
/// designating a primary output clears the flag on the others.
pub proof fn lemma_udev_read_after_write(t: UdevTopologyView, target: DisplayId, e: OutputEdit)
    requires
        !(e is CloneFrom),
        !(e is Hdr),
        udev_staged_edit(t, target, e).1 is Ok,
    ensures
        first_index(udev_ids(t.outputs), target@) matches Some(k) && view_reflects(
            udev_output_view(udev_staged_edit(t, target, e).0.outputs[k]),
            e,
        ) && (!(e is Primary) ==> forall|j: int|
            0 <= j < t.outputs.len() && j != k ==> udev_staged_edit(t, target, e).0.outputs[j] == t.outputs[j]),
{
    lemma_first_index(udev_ids(t.outputs), target@);
}

/// After an output is designated primary, it is the only primary output.
pub proof fn lemma_udev_primary_exclusive(t: UdevTopologyView, target: DisplayId)
    requires
        udev_staged_edit(t, target, OutputEdit::Primary).1 is Ok,
    ensures
        forall|j: int|
            0 <= j < t.outputs.len() ==> (udev_staged_edit(t, target, OutputEdit::Primary).0.outputs[j].is_primary
                <==> first_index(udev_ids(t.outputs), target@) == Some(j)),
{
    lemma_first_index(udev_ids(t.outputs), target@);
}

/// Cloning copies the source's geometry, refresh rate, scale and rotation onto
/// the target.
pub proof fn lemma_udev_clone_copies(t: UdevTopologyView, target: DisplayId, source: DisplayId)
    requires
        udev_staged_edit(t, target, OutputEdit::CloneFrom(source)).1 is Ok,
    ensures
        first_index(udev_ids(t.outputs), target@) matches Some(k) && first_index(
            udev_ids(t.outputs),
            source@,
        ) matches Some(s) && {
            let d = udev_staged_edit(t, target, OutputEdit::CloneFrom(source)).0.outputs[k];
            let o = t.outputs[s];
            &&& d.geometry == o.geometry
            &&& d.refresh_rate == o.refresh_rate
            &&& d.scale_percent == o.scale_percent
            &&& d.rotation == o.rotation
        },
{
    lemma_first_index(udev_ids(t.outputs), target@);
    lemma_first_index(udev_ids(t.outputs), source@);
}

/// An edit naming an output that is not there fails with `NotFound`; apart
/// from a primary designation, which clears the flag everywhere first, it
/// changes nothing.
pub proof fn lemma_udev_missing_output(t: UdevTopologyView, target: DisplayId, e: OutputEdit)
    requires
        first_index(udev_ids(t.outputs), target@) is None,
        e matches OutputEdit::CloneFrom(s) ==> first_index(udev_ids(t.outputs), s@) is Some,
    ensures
        udev_staged_edit(t, target, e).1 == Err::<(), DisplayError>(DisplayError::NotFound(target)),
        !(e is Primary) ==> udev_staged_edit(t, target, e).0 == t,
{
}

/// Staging the value a field already has does not mark the topology dirty,
/// and no edit ever makes a dirty topology clean.
pub proof fn lemma_udev_dirty_tracking(t: UdevTopologyView, target: DisplayId, e: OutputEdit)
    ensures
        t.dirty ==> udev_staged_edit(t, target, e).0.dirty,
        first_index(udev_ids(t.outputs), target@) matches Some(k) && !(e is Primary) && !(
        e is CloneFrom) && udev_field_edit(t.outputs[k], e).0 == t.outputs[k] ==> udev_staged_edit(
            t,
            target,
            e,
        ).0.dirty == t.dirty,
{
}

/// An HDR edit is always refused, whatever the output, and changes nothing.
pub proof fn lemma_udev_hdr_refused(
    t: UdevTopologyView,
    target: DisplayId,
    s: HdrState,
    m: HdrMode,
    t2: UdevTopologyView,
    r: DisplayResult<()>,
)
    requires
        udev_edit_outcome(t, target, OutputEdit::Hdr(s, m), t2, r),
    ensures
        t2 == t,
        r matches Err(err) && udev_hdr_refusal(err),
{
}

} // verus!
