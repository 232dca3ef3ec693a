//! Windows display management backends (CCD + GDI) and the manager that
//! routes between them: the modern CCD path when it could be acquired, the
//! legacy GDI path otherwise.
use vstd::prelude::*;
use vstd::string::StringExecFns;

use self::displmgr_ccd::displmgr_ccd_commit::{ccd_needs_commit, ccd_start_step, step_of, CcdCommitAction};
use crate::backends::overlap::has_overlap;
use self::displmgr_ccd::displmgr_ccd_sys::{
    hdr_payload, make_hdr_payload, make_scale_payload, payload_percent, scale_payload, to_payload_percent,
    CcdPath, DeviceInfoRequest,
};
use self::displmgr_ccd::{path_index, CcdTopology};
use self::displmgr_gdi::{gdi_wf, GdiTopology, GdiView};
use crate::backends::wake::{find_output, output_ids};
use crate::error::{DisplayError, DisplayResult};
use crate::text::{decimal, parse_u32, parsed_u32, u32_to_decimal};
use crate::traits::{first_index, lemma_first_index, OutputEdit};
use crate::types::{DisplayId, DisplayIdentity, Extent2D, HdrState, OutputState, Point2D};

/// CCD (Connecting and Configuring Displays) backend for advanced display topology.
pub mod displmgr_ccd;

/// GDI backend for legacy display configuration.
pub mod displmgr_gdi;

verus! {

/// Holds OS-specific routing data connecting CCD target definitions to GDI
/// device names.
#[derive(Debug)]
pub struct OsLayerData {
    /// The numeric target identifier used inside the Windows CCD subsystem.
    pub target_id: u32,
    /// The Win32 GDI device name path string (e.g., `\\.\DISPLAY1`).
    pub gdi_name: String,
}

/// Combines a human-readable monitor descriptor with its low-level OS
/// mapping layers.
#[derive(Debug)]
pub struct MonitorConfig {
    /// The friendly name retrieved from the display's EDID block or descriptor.
    pub friendly_name: String,
    /// Operating system specific layer connection indices and handles.
    pub os_layer: OsLayerData,
}

/// Pre-defined hardware mappings, as a hardware map file holds them.
#[derive(Debug)]
pub struct EdidDump {
    /// List of pre-configured monitor environments and their physical routing vectors.
    pub monitors: Vec<MonitorConfig>,
}

/// High-level activation result containing details about what was done.
#[derive(Debug)]
pub struct ActivationResult {
    /// The CCD target identifier for the activated display.
    pub target_id: u32,
    /// The friendly monitor name.
    pub monitor_name: String,
    /// Whether the display was already active before the operation.
    pub was_already_active: bool,
    /// Whether the CCD wake step was performed.
    pub ccd_wake_performed: bool,
}

/// The target that the last mapping entry for device `name` gives it.
pub open spec fn mapped_target(monitors: Seq<MonitorConfig>, name: Seq<char>) -> Option<u32>
    decreases monitors.len(),
{
    if monitors.len() == 0 {
        None
    } else if monitors.last().os_layer.gdi_name@ == name {
        Some(monitors.last().os_layer.target_id)
    } else {
        mapped_target(monitors.drop_last(), name)
    }
}

/// The hardware id that enrichment gives the output at `k`: the mapped
/// target of its device, when it is the first output of that name.
pub open spec fn enrich_target(outputs: Seq<OutputState>, monitors: Seq<MonitorConfig>, k: int) -> Option<u32> {
    if first_index(output_ids(outputs), outputs[k].identity.id@) == Some(k) {
        mapped_target(monitors, outputs[k].identity.id@)
    } else {
        None
    }
}

/// `post` is `pre` enriched from `monitors`: each output that a mapping entry
/// names carries the entry's target id, in decimal, as its hardware id; the
/// last entry for a device wins; nothing else changes.
pub open spec fn enriched(pre: Seq<OutputState>, monitors: Seq<MonitorConfig>, post: Seq<OutputState>) -> bool {
    &&& post.len() == pre.len()
    &&& forall|k: int|
        0 <= k < pre.len() ==> match enrich_target(pre, monitors, k) {
            Some(t) => (#[trigger] post[k]).identity.hardware_uuid matches Some(s) && s@ == decimal(t as nat)
                && post[k] == (OutputState {
                identity: DisplayIdentity { hardware_uuid: post[k].identity.hardware_uuid, ..pre[k].identity },
                ..pre[k]
            }),
            None => post[k] == pre[k],
        }
}

/// Gives the GDI outputs that the hardware map names their CCD target id as
/// hardware id.
pub fn enrich_gdi_topology(gdi: &mut GdiTopology, hardware_map: &Option<EdidDump>)
    ensures
        final(gdi)@.persist == old(gdi)@.persist,
        final(gdi)@.saved == old(gdi)@.saved,
        final(gdi)@.primary == old(gdi)@.primary,
        output_ids(final(gdi)@.outputs) == output_ids(old(gdi)@.outputs),
        gdi_wf(old(gdi)@) ==> gdi_wf(final(gdi)@),
        match hardware_map {
            Some(map) => enriched(old(gdi)@.outputs, map.monitors@, final(gdi)@.outputs),
            None => final(gdi)@ == old(gdi)@,
        },
{
    match hardware_map {
        None => {},
        Some(map) => {
            let ghost pre = gdi@.outputs;
            let ghost monitors = map.monitors@;
            let m = map.monitors.len();
            for i in 0..m
                invariant
                    m == monitors.len(),
                    monitors == map.monitors@,
                    pre == old(gdi)@.outputs,
                    gdi@.persist == old(gdi)@.persist,
                    gdi@.saved == old(gdi)@.saved,
                    gdi@.primary == old(gdi)@.primary,
                    output_ids(gdi@.outputs) == output_ids(pre),
                    enriched(pre, monitors.subrange(0, i as int), gdi@.outputs),
            {
                let monitor = &map.monitors[i];
                let ghost before = gdi@.outputs;
                let ghost sub = monitors.subrange(0, i + 1);
                proof {
                    assert(sub.drop_last() =~= monitors.subrange(0, i as int));
                    assert(sub.last() == monitors[i as int]);
                }
                let did = DisplayId(monitor.os_layer.gdi_name.clone());
                match find_output(&gdi.outputs, &did) {
                    Some(k) => {
                        let uuid = u32_to_decimal(monitor.os_layer.target_id);
                        gdi.outputs[k].identity.hardware_uuid = Some(uuid);
                        proof {
                            lemma_first_index(output_ids(before), did@);
                            lemma_first_index(output_ids(pre), did@);
                            assert(output_ids(gdi@.outputs) =~= output_ids(pre));
                            assert forall|j: int| 0 <= j < pre.len() implies match enrich_target(pre, sub, j) {
                                Some(t) => (#[trigger] gdi@.outputs[j]).identity.hardware_uuid matches Some(s)
                                    && s@ == decimal(t as nat) && gdi@.outputs[j] == (OutputState {
                                    identity: DisplayIdentity {
                                        hardware_uuid: gdi@.outputs[j].identity.hardware_uuid,
                                        ..pre[j].identity
                                    },
                                    ..pre[j]
                                }),
                                None => gdi@.outputs[j] == pre[j],
                            } by {
                                assert(output_ids(pre)[j] == pre[j].identity.id@);
                                lemma_first_index(output_ids(pre), pre[j].identity.id@);
                                if j != k {
                                    assert(gdi@.outputs[j] == before[j]);
                                }
                            }
                        }
                    },
                    None => {
                        proof {
                            lemma_first_index(output_ids(pre), did@);
                            assert forall|j: int| 0 <= j < pre.len() implies match enrich_target(pre, sub, j) {
                                Some(t) => (#[trigger] gdi@.outputs[j]).identity.hardware_uuid matches Some(s)
                                    && s@ == decimal(t as nat) && gdi@.outputs[j] == (OutputState {
                                    identity: DisplayIdentity {
                                        hardware_uuid: gdi@.outputs[j].identity.hardware_uuid,
                                        ..pre[j].identity
                                    },
                                    ..pre[j]
                                }),
                                None => gdi@.outputs[j] == pre[j],
                            } by {
                                assert(output_ids(pre)[j] == pre[j].identity.id@);
                            }
                        }
                    },
                }
            }
            proof {
                assert(monitors.subrange(0, m as int) =~= monitors);
            }
        },
    }
}

/// Windows display backend: routes requests between the modern CCD backend
/// and the legacy GDI fallback.
#[derive(Debug)]
pub struct WinDisplayManager {
    /// The CCD backend, when it could be acquired.
    pub ccd: Option<CcdTopology>,
    /// The GDI backend, always present as the fallback.
    pub gdi: GdiTopology,
    /// Whether requests are routed through CCD.
    pub use_ccd: bool,
    /// The hardware map loaded at acquisition.
    pub hardware_map: Option<EdidDump>,
}

/// Requests go to the CCD backend: it is selected and present.
pub open spec fn routes_to_ccd(m: WinDisplayManager) -> bool {
    m.use_ccd && m.ccd is Some
}

/// A manager that routes through CCD holds a CCD topology.
pub open spec fn win_wf(m: WinDisplayManager) -> bool {
    m.use_ccd ==> m.ccd is Some
}

/// The value of a [`WinDisplayManager`], apart from its hardware map.
pub struct WinManagerView {
    pub ccd: Option<displmgr_ccd::CcdView>,
    pub gdi: GdiView,
    pub use_ccd: bool,
}

/// The value of a manager.
pub open spec fn win_view(m: WinDisplayManager) -> WinManagerView {
    WinManagerView {
        ccd: match m.ccd {
            Some(c) => Some(c@),
            None => None,
        },
        gdi: m.gdi@,
        use_ccd: m.use_ccd,
    }
}

/// An editor opens on the output named `id`: through CCD the name must be a
/// target id that a path carries; through GDI an output must have the name.
pub open spec fn win_editor_opens(v: WinManagerView, id: Seq<char>) -> bool {
    if v.use_ccd && v.ccd is Some {
        parsed_u32(id) matches Some(t) && path_index(v.ccd->Some_0.paths, t) is Some
    } else {
        first_index(output_ids(v.gdi.outputs), id) is Some
    }
}

/// The manager after staging `e` on the output named `id`, through the
/// backend requests are routed to; nothing changes when no editor opens.
pub open spec fn win_edit_state(v: WinManagerView, id: Seq<char>, e: OutputEdit) -> WinManagerView {
    if !win_editor_opens(v, id) {
        v
    } else if v.use_ccd && v.ccd is Some {
        WinManagerView {
            ccd: Some(displmgr_ccd::ccd_edit(v.ccd->Some_0, parsed_u32(id)->Some_0, e).0),
            ..v
        }
    } else {
        WinManagerView { gdi: displmgr_gdi::displmgr_gdi_editor::gdi_edit_state(v.gdi, id, e), ..v }
    }
}

/// The outputs the manager reports: those of the backend it routes to.
pub open spec fn manager_outputs(m: WinDisplayManager) -> Seq<OutputState> {
    if routes_to_ccd(m) {
        m.ccd->Some_0@.outputs
    } else {
        m.gdi@.outputs
    }
}

/// The furthest right edge, computed in 32 bits, among the enabled outputs of
/// positive width; `None` when there is none.
pub open spec fn rightmost_edge(outputs: Seq<OutputState>) -> Option<int>
    decreases outputs.len(),
{
    if outputs.len() == 0 {
        None
    } else {
        let rest = rightmost_edge(outputs.drop_last());
        let o = outputs.last();
        if o.enabled && o.geometry.size.width > 0 {
            let e = o.geometry.origin.x + displmgr_gdi::displmgr_gdi_api::i32_of(o.geometry.size.width);
            match rest {
                Some(r) => if e > r { Some(e) } else { Some(r) },
                None => Some(e),
            }
        } else {
            rest
        }
    }
}

/// The left edge that automatic placement chooses: the rightmost edge, or
/// 1920 when no output is enabled with a positive width.
pub open spec fn auto_x(outputs: Seq<OutputState>) -> int {
    match rightmost_edge(outputs) {
        Some(e) => e,
        None => 1920,
    }
}

/// The right edges of the enabled outputs of positive width fit in 32 bits.
pub open spec fn edges_fit(outputs: Seq<OutputState>) -> bool {
    forall|j: int|
        0 <= j < outputs.len() && (#[trigger] outputs[j]).enabled && outputs[j].geometry.size.width > 0
            ==> i32::MIN <= outputs[j].geometry.origin.x + displmgr_gdi::displmgr_gdi_api::i32_of(
            outputs[j].geometry.size.width,
        ) <= i32::MAX
}

/// The GDI-side scale and HDR settings of output `o`, sent through path `p`:
/// a scale other than 100 percent, then HDR when it is switched on.
pub open spec fn path_sync_requests(o: OutputState, p: CcdPath) -> Seq<DeviceInfoRequest> {
    (if o.scale_percent != 100 {
        seq![DeviceInfoRequest::Scale(scale_payload(p, payload_percent(o.scale_percent)))]
    } else {
        Seq::empty()
    }) + (if o.hdr_state != HdrState::Disabled {
        seq![DeviceInfoRequest::Hdr(hdr_payload(p, o.hdr_state == HdrState::Enabled))]
    } else {
        Seq::empty()
    })
}

/// The settings of `o` sent through every path of target `tid`, in the
/// order of the paths.
pub open spec fn matching_sync_requests(o: OutputState, tid: u32, paths: Seq<CcdPath>) -> Seq<
    DeviceInfoRequest,
>
    decreases paths.len(),
{
    if paths.len() == 0 {
        Seq::empty()
    } else {
        matching_sync_requests(o, tid, paths.drop_last()) + if paths.last().target_id == tid {
            path_sync_requests(o, paths.last())
        } else {
            Seq::empty()
        }
    }
}

/// The GDI-side scale and HDR settings of one output, sent through each
/// path of the CCD target its hardware id names.
pub open spec fn sync_requests_of(o: OutputState, paths: Seq<CcdPath>) -> Seq<DeviceInfoRequest> {
    match o.identity.hardware_uuid {
        Some(h) => match parsed_u32(h@) {
            Some(tid) => matching_sync_requests(o, tid, paths),
            None => Seq::empty(),
        },
        None => Seq::empty(),
    }
}

/// The requests that carry the GDI-side settings of every output over to a
/// fresh CCD topology, in the order of the outputs.
pub open spec fn sync_requests(outputs: Seq<OutputState>, paths: Seq<CcdPath>) -> Seq<DeviceInfoRequest>
    decreases outputs.len(),
{
    if outputs.len() == 0 {
        Seq::empty()
    } else {
        sync_requests(outputs.drop_last(), paths) + sync_requests_of(outputs.last(), paths)
    }
}

/// Lists the device-info requests that apply the scale and HDR settings
/// staged on the GDI side to the CCD targets named by the outputs' hardware
/// ids.
pub fn gdi_ccd_sync_requests(gdi: &GdiTopology, fresh_ccd: &CcdTopology) -> (res: Vec<DeviceInfoRequest>)
    ensures
        res@ == sync_requests(gdi@.outputs, fresh_ccd@.paths),
{
    let mut res: Vec<DeviceInfoRequest> = Vec::new();
    let n = gdi.outputs.len();
    for i in 0..n
        invariant
            n == gdi@.outputs.len(),
            res@ == sync_requests(gdi@.outputs.subrange(0, i as int), fresh_ccd@.paths),
    {
        let ghost before = res@;
        let o = &gdi.outputs[i];
        proof {
            assert(gdi@.outputs.subrange(0, i + 1).drop_last() =~= gdi@.outputs.subrange(0, i as int));
            assert(gdi@.outputs.subrange(0, i + 1).last() == gdi@.outputs[i as int]);
        }
        match &o.identity.hardware_uuid {
            Some(h) => match parse_u32(h.as_str()) {
                Some(tid) => {
                    let m = fresh_ccd.data.paths.len();
                    for j in 0..m
                        invariant
                            m == fresh_ccd@.paths.len(),
                            i < n,
                            n == gdi@.outputs.len(),
                            *o == gdi@.outputs[i as int],
                            res@ == before + matching_sync_requests(
                                *o,
                                tid,
                                fresh_ccd@.paths.subrange(0, j as int),
                            ),
                    {
                        let ghost mid = res@;
                        let path = &fresh_ccd.data.paths[j];
                        if path.target_id == tid {
                            if o.scale_percent != 100 {
                                res.push(
                                    DeviceInfoRequest::Scale(
                                        make_scale_payload(path, to_payload_percent(o.scale_percent)),
                                    ),
                                );
                            }
                            if o.hdr_state != HdrState::Disabled {
                                res.push(
                                    DeviceInfoRequest::Hdr(make_hdr_payload(path, o.hdr_state == HdrState::Enabled)),
                                );
                            }
                        }
                        proof {
                            let sub = fresh_ccd@.paths.subrange(0, j + 1);
                            assert(sub.drop_last() =~= fresh_ccd@.paths.subrange(0, j as int));
                            assert(sub.last() == fresh_ccd@.paths[j as int]);
                            if path.target_id == tid {
                                assert(res@ =~= mid + path_sync_requests(*o, *path));
                            } else {
                                assert(res@ =~= mid + Seq::<DeviceInfoRequest>::empty());
                            }
                        }
                    }
                    proof {
                        assert(fresh_ccd@.paths.subrange(0, m as int) =~= fresh_ccd@.paths);
                    }
                },
                None => {},
            },
            None => {},
        }
        proof {
            assert(res@ =~= before + sync_requests_of(gdi@.outputs[i as int], fresh_ccd@.paths));
        }
    }
    proof {
        assert(gdi@.outputs.subrange(0, n as int) =~= gdi@.outputs);
    }
    res
}

/// The text of a commit routed to a CCD backend that is not there.
pub open spec fn ccd_missing_text() -> Seq<char> {
    seq![
        'C', 'C', 'D', ' ', 'b', 'a', 'c', 'k', 'e', 'n', 'd', ' ', 'u', 'n', 'i', 'n', 'i', 't', 'i',
        'a', 'l', 'i', 'z', 'e', 'd'
    ]
}

/// Which backend a commit goes through.
#[derive(Debug, Clone, Copy, PartialEq, Eq, Structural)]
pub enum WinCommitRoute {
    /// Through the CCD backend.
    Ccd,
    /// CCD is selected but not present: the commit fails.
    CcdMissing,
    /// Through the GDI backend.
    Gdi,
}

impl WinDisplayManager {
    /// Assembles the manager from the backends acquired: CCD is used when it
    /// could be acquired, and the GDI outputs are enriched from the hardware
    /// map.
    pub fn from_backends(ccd: Option<CcdTopology>, gdi: GdiTopology, hardware_map: Option<EdidDump>) -> (res:
        Self)
        ensures
            res.use_ccd == ccd is Some,
            res.ccd == ccd,
            win_wf(res),
            res.hardware_map == hardware_map,
            res.gdi@.persist == gdi@.persist,
            res.gdi@.saved == gdi@.saved,
            res.gdi@.primary == gdi@.primary,
            match hardware_map {
                Some(map) => enriched(gdi@.outputs, map.monitors@, res.gdi@.outputs),
                None => res.gdi@ == gdi@,
            },
    {
        let use_ccd = ccd.is_some();
        let mut gdi = gdi;
        enrich_gdi_topology(&mut gdi, &hardware_map);
        WinDisplayManager { ccd, gdi, use_ccd, hardware_map }
    }

    /// Read-only access to the loaded hardware map.
    pub fn hardware_map(&self) -> (res: Option<&EdidDump>)
        ensures
            match self.hardware_map {
                Some(m) => res == Some(&m),
                None => res is None,
            },
    {
        match &self.hardware_map {
            Some(m) => Some(m),
            None => None,
        }
    }

    /// Whether the CCD backend is selected for routing.
    pub fn uses_ccd(&self) -> (res: bool)
        ensures
            res == self.use_ccd,
    {
        self.use_ccd
    }

    /// Returns the outputs of the backend requests are routed to.
    pub fn get_outputs(&self) -> (res: Vec<OutputState>)
        ensures
            res@.len() == manager_outputs(*self).len(),
            forall|j: int| 0 <= j < res@.len() ==> #[trigger] res@[j]@ == manager_outputs(*self)[j]@,
    {
        if self.use_ccd {
            if let Some(c) = &self.ccd {
                return c.get_outputs();
            }
        }
        self.gdi.get_outputs()
    }

    /// A position right of the rightmost enabled output of positive width,
    /// on the top edge; at 1920 when there is none.
    pub fn auto_position_right_of(&self) -> (res: Point2D)
        requires
            edges_fit(manager_outputs(*self)),
        ensures
            res.y == 0,
            res.x as int == auto_x(manager_outputs(*self)),
    {
        let outputs = self.get_outputs();
        let ghost src = manager_outputs(*self);
        let n = outputs.len();
        let mut best: Option<i32> = None;
        for i in 0..n
            invariant
                n == outputs@.len(),
                n == src.len(),
                edges_fit(src),
                forall|j: int| 0 <= j < n ==> #[trigger] outputs@[j]@ == src[j]@,
                match rightmost_edge(src.subrange(0, i as int)) {
                    Some(e) => best matches Some(b) && b as int == e,
                    None => best is None,
                },
        {
            proof {
                assert(src.subrange(0, i + 1).drop_last() =~= src.subrange(0, i as int));
                assert(src.subrange(0, i + 1).last() == src[i as int]);
                assert(outputs@[i as int]@ == src[i as int]@);
            }
            let o = &outputs[i];
            if o.enabled && o.geometry.size.width > 0 {
                proof {
                    assert(src[i as int].enabled && src[i as int].geometry.size.width > 0);
                }
                let e = o.geometry.origin.x + displmgr_gdi::displmgr_gdi_api::as_i32(o.geometry.size.width);
                best = match best {
                    Some(b) => if e > b { Some(e) } else { Some(b) },
                    None => Some(e),
                };
            }
        }
        proof {
            assert(src.subrange(0, n as int) =~= src);
        }
        let x = match best {
            Some(b) => b,
            None => 1920,
        };
        Point2D { x, y: 0 }
    }

    /// Toggles persistence on both backends.
    pub fn set_persistence(&mut self, enabled: bool)
        ensures
            win_wf(*old(self)) ==> win_wf(*final(self)),
            final(self).gdi@ == (GdiView { persist: enabled, ..old(self).gdi@ }),
            final(self).use_ccd == old(self).use_ccd,
            final(self).hardware_map == old(self).hardware_map,
            match old(self).ccd {
                Some(c) => final(self).ccd matches Some(c2) && c2@ == (displmgr_ccd::CcdView {
                    persist: enabled,
                    ..c@
                }),
                None => final(self).ccd is None,
            },
    {
        if let Some(c) = &mut self.ccd {
            c.set_persistence(enabled);
        }
        self.gdi.set_persistence(enabled);
    }

    /// Whether an editor opens on the output named `id`.
    pub fn editor_opens(&self, id: &DisplayId) -> (res: bool)
        ensures
            res == win_editor_opens(win_view(*self), id@),
    {
        if self.use_ccd {
            if let Some(c) = &self.ccd {
                return c.edit_output(id).is_ok();
            }
        }
        self.gdi.edit_output(id).is_ok()
    }

    /// Stages `edit` on the output named `id` through the backend requests
    /// are routed to: CCD takes the output's name as a target id.
    pub fn apply_edit(&mut self, id: &DisplayId, edit: &OutputEdit) -> (res: DisplayResult<()>)
        ensures
            win_wf(*old(self)) ==> win_wf(*final(self)),
            win_view(*final(self)) == win_edit_state(win_view(*old(self)), id@, *edit),
            final(self).hardware_map == old(self).hardware_map,
            !win_editor_opens(win_view(*old(self)), id@) ==> res == Err::<(), DisplayError>(
                DisplayError::NotFound(*id),
            ),
            win_editor_opens(win_view(*old(self)), id@) && routes_to_ccd(*old(self)) ==> {
                let c = old(self).ccd->Some_0@;
                let t = parsed_u32(id@)->Some_0;
                displmgr_ccd::ccd_result(res, displmgr_ccd::ccd_edit(c, t, *edit).1, t, *edit)
            },
            win_editor_opens(win_view(*old(self)), id@) && !routes_to_ccd(*old(self)) ==> res
                == displmgr_gdi::displmgr_gdi_editor::gdi_edit_result(old(self).gdi@, *id, *edit),
    {
        if self.use_ccd {
            if let Some(c) = &mut self.ccd {
                return match c.edit_output(id) {
                    Ok(t) => c.apply_edit(t, edit),
                    Err(e) => Err(e),
                };
            }
        }
        match self.gdi.edit_output(id) {
            Ok(()) => self.gdi.apply_edit(id, edit),
            Err(e) => Err(e),
        }
    }

    /// Stages the activation of target `target_id`: opens an editor on it,
    /// then stages `resolution` if given, the position (`position`, or right
    /// of the other displays), and switches it on. Failures of the staged
    /// edits themselves are ignored; only an editor that does not open fails.
    pub fn stage_activation(
        &mut self,
        target_id: u32,
        resolution: Option<Extent2D>,
        position: Option<Point2D>,
    ) -> (res: DisplayResult<()>)
        requires
            position is None ==> edges_fit(manager_outputs(*old(self))),
        ensures
            win_wf(*old(self)) ==> win_wf(*final(self)),
            final(self).hardware_map == old(self).hardware_map,
            ({
                let v0 = win_view(*old(self));
                let did = decimal(target_id as nat);
                let pos = match position {
                    Some(p) => p,
                    None => Point2D { x: auto_x(manager_outputs(*old(self))) as i32, y: 0 },
                };
                let v1 = match resolution {
                    Some(r) => win_edit_state(v0, did, OutputEdit::Resolution(r)),
                    None => v0,
                };
                let v2 = win_edit_state(v1, did, OutputEdit::Position(pos));
                let v3 = win_edit_state(v2, did, OutputEdit::Enabled(true));
                &&& !win_editor_opens(v0, did) ==> win_view(*final(self)) == v0 && (res matches Err(
                    DisplayError::NotFound(d),
                ) && d@ == did)
                &&& win_editor_opens(v0, did) ==> res is Ok && win_view(*final(self)) == v3
            }),
    {
        let final_pos = match position {
            Some(p) => p,
            None => self.auto_position_right_of(),
        };
        let did = DisplayId(u32_to_decimal(target_id));
        if !self.editor_opens(&did) {
            return Err(DisplayError::NotFound(did));
        }
        if let Some(r) = resolution {
            let _ = self.apply_edit(&did, &OutputEdit::Resolution(r));
        }
        let _ = self.apply_edit(&did, &OutputEdit::Position(final_pos));
        let _ = self.apply_edit(&did, &OutputEdit::Enabled(true));
        Ok(())
    }

    /// The first step of a validation through the backend requests are
    /// routed to: that of the CCD commit, or the GDI overlap check, which
    /// needs no call of the system.
    pub fn validate_start(&self) -> (res: CcdCommitAction)
        ensures
            routes_to_ccd(*self) ==> step_of(res) == ccd_start_step(self.ccd->Some_0@),
            !routes_to_ccd(*self) ==> (res matches CcdCommitAction::Finish(r) && (r is Ok <==> !has_overlap(
                self.gdi@.outputs,
            ))),
            res matches CcdCommitAction::Finish(r) ==> (r is Ok || r matches Err(
                DisplayError::ConfigurationRejected,
            )),
    {
        if self.use_ccd {
            if let Some(c) = &self.ccd {
                return c.commit_start();
            }
        }
        CcdCommitAction::Finish(self.gdi.validate())
    }

    /// Which backend a commit goes through.
    pub fn commit_route(&self) -> (res: WinCommitRoute)
        ensures
            res == (if self.use_ccd {
                if self.ccd is Some {
                    WinCommitRoute::Ccd
                } else {
                    WinCommitRoute::CcdMissing
                }
            } else {
                WinCommitRoute::Gdi
            }),
    {
        if self.use_ccd {
            if self.ccd.is_some() {
                WinCommitRoute::Ccd
            } else {
                WinCommitRoute::CcdMissing
            }
        } else {
            WinCommitRoute::Gdi
        }
    }

    /// The error of a commit routed to a missing CCD backend.
    pub fn ccd_missing_error(&self) -> (res: DisplayError)
        ensures
            res matches DisplayError::BackendError(m) && m@ == ccd_missing_text(),
    {
        proof {
            reveal_strlit("CCD backend uninitialized");
        }
        let m = String::from_str("CCD backend uninitialized");
        assert(m@ =~= ccd_missing_text());
        DisplayError::BackendError(m)
    }

    /// After a CCD commit: the GDI side is replaced by a fresh acquisition,
    /// enriched from the hardware map, when one could be made.
    pub fn after_ccd_commit(&mut self, fresh_gdi: Option<GdiTopology>)
        ensures
            win_wf(*old(self)) ==> win_wf(*final(self)),
            final(self).ccd == old(self).ccd,
            final(self).use_ccd == old(self).use_ccd,
            final(self).hardware_map == old(self).hardware_map,
            match fresh_gdi {
                Some(g) => match old(self).hardware_map {
                    Some(map) => enriched(g@.outputs, map.monitors@, final(self).gdi@.outputs)
                        && final(self).gdi@.persist == g@.persist && final(self).gdi@.saved == g@.saved
                        && final(self).gdi@.primary == g@.primary,
                    None => final(self).gdi@ == g@,
                },
                None => final(self).gdi == old(self).gdi,
            },
    {
        if let Some(g) = fresh_gdi {
            let mut g = g;
            enrich_gdi_topology(&mut g, &self.hardware_map);
            self.gdi = g;
        }
    }

    /// After a GDI commit: the staged primary is done with; when a fresh CCD
    /// topology could be acquired, it takes over routing and the returned
    /// requests carry the GDI-side scale and HDR settings over to it; the
    /// GDI outputs are enriched again.
    pub fn after_gdi_commit(&mut self, fresh_ccd: Option<CcdTopology>) -> (res: Vec<DeviceInfoRequest>)
        ensures
            win_wf(*old(self)) ==> win_wf(*final(self)),
            final(self).hardware_map == old(self).hardware_map,
            final(self).gdi@.primary is None,
            final(self).gdi@.persist == old(self).gdi@.persist,
            final(self).gdi@.saved == old(self).gdi@.saved,
            match old(self).hardware_map {
                Some(map) => enriched(old(self).gdi@.outputs, map.monitors@, final(self).gdi@.outputs),
                None => final(self).gdi@.outputs == old(self).gdi@.outputs,
            },
            match fresh_ccd {
                Some(c) => final(self).ccd == Some(c) && final(self).use_ccd && res@ == sync_requests(
                    old(self).gdi@.outputs,
                    c@.paths,
                ),
                None => final(self).ccd == old(self).ccd && final(self).use_ccd == old(self).use_ccd
                    && res@.len() == 0,
            },
    {
        self.gdi.finish_commit();
        let res = match fresh_ccd {
            Some(c) => {
                let reqs = gdi_ccd_sync_requests(&self.gdi, &c);
                self.ccd = Some(c);
                self.use_ccd = true;
                reqs
            },
            None => Vec::new(),
        };
        enrich_gdi_topology(&mut self.gdi, &self.hardware_map);
        res
    }
}

/// The right edge of an output as automatic placement computes it.
pub open spec fn auto_edge(o: OutputState) -> int {
    o.geometry.origin.x + displmgr_gdi::displmgr_gdi_api::i32_of(o.geometry.size.width)
}

/// An output that automatic placement takes into account: enabled, of
/// positive width.
pub open spec fn placed_beside(o: OutputState) -> bool {
    o.enabled && o.geometry.size.width > 0
}

proof fn lemma_rightmost_edge_max(outputs: Seq<OutputState>)
    ensures
        match rightmost_edge(outputs) {
            Some(e) => {
                &&& forall|j: int|
                    0 <= j < outputs.len() && placed_beside(#[trigger] outputs[j]) ==> auto_edge(outputs[j]) <= e
                &&& exists|j: int|
                    0 <= j < outputs.len() && placed_beside(#[trigger] outputs[j]) && auto_edge(outputs[j]) == e
            },
            None => forall|j: int| 0 <= j < outputs.len() ==> !placed_beside(#[trigger] outputs[j]),
        },
    decreases outputs.len(),
{
    if outputs.len() > 0 {
        let init = outputs.drop_last();
        lemma_rightmost_edge_max(init);
        let last = outputs.len() - 1;
        match rightmost_edge(outputs) {
            Some(e) => {
                assert forall|j: int| 0 <= j < outputs.len() && placed_beside(#[trigger] outputs[j]) implies auto_edge(
                    outputs[j],
                ) <= e by {
                    if j < last {
                        assert(init[j] == outputs[j]);
                    }
                }
                if placed_beside(outputs[last]) && auto_edge(outputs[last]) == e {
                } else {
                    let k = choose|k: int|
                        0 <= k < init.len() && placed_beside(#[trigger] init[k]) && auto_edge(init[k]) == e;
                    assert(outputs[k] == init[k]);
                }
            },
            None => {
                assert forall|j: int| 0 <= j < outputs.len() implies !placed_beside(#[trigger] outputs[j]) by {
                    if j < last {
                        assert(init[j] == outputs[j]);
                    }
                }
            },
        }
    }
}

/// Automatic placement puts a new output at or right of every enabled output
/// of positive width and flush with one of them, whatever order they are
/// listed in; at 1920 when there is none.
pub proof fn lemma_auto_x_right_of_all(outputs: Seq<OutputState>)
    ensures
        forall|j: int|
            0 <= j < outputs.len() && placed_beside(#[trigger] outputs[j]) ==> auto_edge(outputs[j]) <= auto_x(
                outputs,
            ),
        (exists|j: int|
            0 <= j < outputs.len() && placed_beside(#[trigger] outputs[j]) && auto_edge(outputs[j]) == auto_x(
                outputs,
            )) || ((forall|j: int| 0 <= j < outputs.len() ==> !placed_beside(#[trigger] outputs[j])) && auto_x(
            outputs,
        ) == 1920),
{
    lemma_rightmost_edge_max(outputs);
}

} // verus!
