//! DRM/KMS backend: outputs probed from the kernel, edits staged on them, and
//! the atomic property writes that a commit sends.
//!
//! The device itself is opened and driven by the platform layer; this module
//! holds the state between probing and committing.
use vstd::prelude::*;
use vstd::string::StringExecFns;

use crate::backends::overlap::{check_overlap, has_overlap};
use crate::error::{DisplayError, DisplayResult};
use crate::backends::wake::{
    find_output, keep_view, output_ids, restore_outputs, restored_outputs, wake_outputs, woken_ids,
    woken_outputs,
};
use crate::traits::{first_from, first_index, lemma_first_index, view_reflects, OutputEdit};
use crate::types::{is_default_output, DisplayId, DisplayRotation, HdrState, OutputState, Rect};

/// Kernel object identifiers, rotation values, the property cache and the
/// atomic request.
pub mod displmgr_drm_sys;

/// Mapping of probed connectors to output states.
pub mod displmgr_drm_api;

use self::displmgr_drm_sys::{
    atomic_req_add, atomic_req_new, atomic_req_props, no_props, cache_ids_nonzero, drm_rotation_value,
    prop_lookup, rotation_to_drm_value, DrmPropertyCache, DrmResourceIds,
};
use drm::control::atomic::AtomicModeReq;

verus! {

/// Linux Direct Rendering Manager (DRM) backend using Atomic KMS.
#[derive(Debug)]
pub struct DrmTopology {
    /// The outputs probed from the device, with staged edits applied.
    pub outputs: Vec<OutputState>,
    /// Property writes staged for the next atomic commit.
    pub atomic_req: AtomicModeReq,
    /// Kernel object ids of each output.
    pub resource_map: Vec<(DisplayId, DrmResourceIds)>,
    /// Property ids of each connector by name.
    pub property_cache: DrmPropertyCache,
    /// Whether anything has been staged since the last commit.
    pub dirty: bool,
}

/// The value of a [`DrmTopology`].
pub struct DrmTopologyView {
    pub outputs: Seq<OutputState>,
    pub props: Map<(u32, u32), u64>,
    pub resources: Seq<(DisplayId, DrmResourceIds)>,
    pub cache: Seq<(u32, Vec<(String, u32)>)>,
    pub dirty: bool,
}

impl View for DrmTopology {
    type V = DrmTopologyView;

    open spec fn view(&self) -> DrmTopologyView {
        DrmTopologyView {
            outputs: self.outputs@,
            props: atomic_req_props(self.atomic_req),
            resources: self.resource_map@,
            cache: self.property_cache.props@,
            dirty: self.dirty,
        }
    }
}

/// The identifiers the resource map is keyed by, in order.
pub open spec fn resource_ids(resources: Seq<(DisplayId, DrmResourceIds)>) -> Seq<Seq<char>> {
    resources.map_values(|e: (DisplayId, DrmResourceIds)| e.0@)
}

/// The kernel objects recorded for the output named `id`.
pub open spec fn resource_lookup(resources: Seq<(DisplayId, DrmResourceIds)>, id: Seq<char>) -> Option<
    DrmResourceIds,
> {
    match first_index(resource_ids(resources), id) {
        Some(k) => Some(resources[k].1),
        None => None,
    }
}

/// Every kernel object id the topology refers to is valid (nonzero), as the
/// drm crate's handle types guarantee.
pub open spec fn drm_wf(t: DrmTopologyView) -> bool {
    &&& forall|k: int|
        0 <= k < t.resources.len() ==> (#[trigger] t.resources[k]).1.connector_id != 0
            && t.resources[k].1.primary_plane_id != 0
    &&& cache_ids_nonzero(t.cache)
}

/// Stages the write of `prop` on `obj` when the property is known.
pub open spec fn stage_prop(props: Map<(u32, u32), u64>, obj: u32, prop: Option<u32>, value: u64) -> Map<
    (u32, u32),
    u64,
> {
    match prop {
        Some(p) => props.insert((obj, p), value),
        None => props,
    }
}

/// The outputs with every primary flag cleared.
pub open spec fn drm_clear_primary(outputs: Seq<OutputState>) -> Seq<OutputState> {
    Seq::new(outputs.len(), |j: int| OutputState { is_primary: false, ..outputs[j] })
}

/// The effect of staging a rotation, position or HDR change on output `k`
/// named `target` once its field has changed: the object ids are looked up
/// and the matching property write is staged when the property is known.
pub open spec fn drm_stage_props(
    t: DrmTopologyView,
    target: DisplayId,
    outputs: Seq<OutputState>,
    e: OutputEdit,
) -> (DrmTopologyView, DisplayResult<()>) {
    match resource_lookup(t.resources, target@) {
        None => (DrmTopologyView { outputs, ..t }, Err(DisplayError::NotFound(target))),
        Some(res) => match e {
            OutputEdit::Rotation(r) => {
                let p = prop_lookup(t.cache, res.connector_id, "rotation"@);
                (
                    DrmTopologyView {
                        outputs,
                        props: stage_prop(t.props, res.primary_plane_id, p, drm_rotation_value(r)),
                        dirty: t.dirty || p is Some,
                        ..t
                    },
                    Ok(()),
                )
            },
            OutputEdit::Position(pos) => {
                let px = prop_lookup(t.cache, res.connector_id, "CRTC_X"@);
                let py = prop_lookup(t.cache, res.connector_id, "CRTC_Y"@);
                (
                    DrmTopologyView {
                        outputs,
                        props: stage_prop(
                            stage_prop(t.props, res.primary_plane_id, px, pos.x as u64),
                            res.primary_plane_id,
                            py,
                            pos.y as u64,
                        ),
                        dirty: true,
                        ..t
                    },
                    Ok(()),
                )
            },
            OutputEdit::Hdr(s, _) => {
                let p = prop_lookup(t.cache, res.connector_id, "HDR_OUTPUT_METADATA"@);
                (
                    DrmTopologyView {
                        outputs,
                        props: stage_prop(
                            t.props,
                            res.connector_id,
                            p,
                            if s == HdrState::Enabled {
                                1
                            } else {
                                0
                            },
                        ),
                        dirty: t.dirty || p is Some,
                        ..t
                    },
                    Ok(()),
                )
            },
            _ => (DrmTopologyView { outputs, ..t }, Ok(())),
        },
    }
}

/// The new output and whether the field changed, for a single-field edit.
pub open spec fn drm_field_edit(o: OutputState, e: OutputEdit) -> (OutputState, bool) {
    match e {
        OutputEdit::Rotation(r) => (OutputState { rotation: r, ..o }, o.rotation != r),
        OutputEdit::Resolution(x) => (
            OutputState { geometry: Rect { size: x, ..o.geometry }, ..o },
            o.geometry.size != x,
        ),
        OutputEdit::Position(p) => (
            OutputState { geometry: Rect { origin: p, ..o.geometry }, ..o },
            o.geometry.origin != p,
        ),
        OutputEdit::RefreshRate(r) => (OutputState { refresh_rate: r, ..o }, o.refresh_rate != r),
        OutputEdit::Hdr(s, m) => (
            OutputState { hdr_state: s, hdr_mode: m, ..o },
            o.hdr_state != s || o.hdr_mode != m,
        ),
        OutputEdit::Scale(s) => (OutputState { scale_percent: s, ..o }, o.scale_percent != s),
        OutputEdit::Enabled(b) => (OutputState { enabled: b, ..o }, o.enabled != b),
        _ => (o, false),
    }
}

/// The effect of staging `e` on the output named `target`: the new topology
/// and the result the editor reports.
pub open spec fn drm_edit(t: DrmTopologyView, target: DisplayId, e: OutputEdit) -> (
    DrmTopologyView,
    DisplayResult<()>,
) {
    let ids = output_ids(t.outputs);
    match e {
        OutputEdit::Primary => {
            let cleared = drm_clear_primary(t.outputs);
            match first_index(ids, target@) {
                None => (DrmTopologyView { outputs: cleared, ..t }, Err(DisplayError::NotFound(target))),
                Some(k) => (
                    DrmTopologyView {
                        outputs: cleared.update(k, OutputState { is_primary: true, ..cleared[k] }),
                        dirty: true,
                        ..t
                    },
                    Ok(()),
                ),
            }
        },
        OutputEdit::CloneFrom(source) => match first_index(ids, source@) {
            None => (t, Err(DisplayError::NotFound(source))),
            Some(s) => match first_index(ids, target@) {
                None => (t, Err(DisplayError::NotFound(target))),
                Some(k) => {
                    let src = t.outputs[s];
                    let dst = OutputState {
                        geometry: src.geometry,
                        refresh_rate: src.refresh_rate,
                        rotation: src.rotation,
                        scale_percent: src.scale_percent,
                        ..t.outputs[k]
                    };
                    (DrmTopologyView { outputs: t.outputs.update(k, dst), dirty: true, ..t }, Ok(()))
                },
            },
        },
        _ => match first_index(ids, target@) {
            None => (t, Err(DisplayError::NotFound(target))),
            Some(k) => {
                let (o, changed) = drm_field_edit(t.outputs[k], e);
                let outputs = t.outputs.update(k, o);
                if !changed {
                    (t, Ok(()))
                } else if e is Rotation || e is Position || e is Hdr {
                    drm_stage_props(t, target, outputs, e)
                } else {
                    (DrmTopologyView { outputs, dirty: true, ..t }, Ok(()))
                }
            },
        },
    }
}

impl DrmTopology {
    /// A topology over freshly probed outputs, with nothing staged.
    pub fn from_probe(
        outputs: Vec<OutputState>,
        resource_map: Vec<(DisplayId, DrmResourceIds)>,
        property_cache: DrmPropertyCache,
    ) -> (res: Self)
        ensures
            res.outputs@ == outputs@,
            res.resource_map@ == resource_map@,
            res.property_cache.props@ == property_cache.props@,
            res@.props == no_props(),
            !res.dirty,
    {
        DrmTopology {
            outputs,
            atomic_req: atomic_req_new(),
            resource_map,
            property_cache,
            dirty: false,
        }
    }

    /// Position of the first output named `id`.
    pub fn find(&self, id: &DisplayId) -> (res: Option<usize>)
        ensures
            match res {
                Some(k) => first_index(output_ids(self.outputs@), id@) == Some(k as int) && k
                    < self.outputs@.len(),
                None => first_index(output_ids(self.outputs@), id@) is None,
            },
    {
        find_output(&self.outputs, id)
    }

    /// The kernel objects recorded for the output named `id`.
    pub fn find_resources(&self, id: &DisplayId) -> (res: Option<DrmResourceIds>)
        ensures
            res == resource_lookup(self.resource_map@, id@),
    {
        let n = self.resource_map.len();
        let ghost ids = resource_ids(self.resource_map@);
        let mut i: usize = 0;
        while i < n
            invariant
                n == self.resource_map@.len(),
                ids == resource_ids(self.resource_map@),
                i <= n,
                first_index(ids, id@) == first_from(ids, id@, i as int),
            decreases n - i,
        {
            if self.resource_map[i].0.same_as(id) {
                return Some(self.resource_map[i].1);
            }
            i = i + 1;
        }
        None
    }

    /// Locates the property id cached for connector `conn` under `name`.
    pub fn find_prop_id(&self, conn: u32, name: &str) -> (res: Option<u32>)
        ensures
            res == prop_lookup(self.property_cache.props@, conn, name@),
    {
        self.property_cache.find(conn, name)
    }

    /// Returns every output as probed and edited.
    pub fn get_outputs(&self) -> (res: Vec<OutputState>)
        ensures
            res@.len() == self.outputs@.len(),
            forall|j: int| 0 <= j < res@.len() ==> #[trigger] res@[j]@ == self.outputs@[j]@,
    {
        let mut res: Vec<OutputState> = Vec::new();
        let n = self.outputs.len();
        for i in 0..n
            invariant
                n == self.outputs@.len(),
                res@.len() == i,
                forall|j: int| 0 <= j < i ==> #[trigger] res@[j]@ == self.outputs@[j]@,
        {
            res.push(self.outputs[i].clone());
        }
        res
    }

    /// Snapshot of the configuration of the output named `id`, or the default
    /// output state when there is none.
    pub fn get_state(&self, id: &DisplayId) -> (res: OutputState)
        ensures
            match first_index(output_ids(self.outputs@), id@) {
                Some(k) => res@ == self.outputs@[k]@,
                None => is_default_output(res@),
            },
    {
        match self.find(id) {
            Some(k) => self.outputs[k].clone(),
            None => OutputState::default(),
        }
    }

    /// Checks that an editor can be opened on the output named `id`.
    pub fn edit_output(&self, id: &DisplayId) -> (res: DisplayResult<()>)
        ensures
            res is Ok <==> first_index(output_ids(self.outputs@), id@) is Some,
            res is Err ==> res == Err::<(), DisplayError>(DisplayError::NotFound(*id)),
    {
        match self.find(id) {
            Some(_) => Ok(()),
            None => Err(DisplayError::NotFound(id.clone())),
        }
    }

    /// Stages `edit` on the output named `target`.
    pub fn apply_edit(&mut self, target: &DisplayId, edit: &OutputEdit) -> (res: DisplayResult<()>)
        requires
            drm_wf(old(self)@),
        ensures
            (final(self)@, res) == drm_edit(old(self)@, *target, *edit),
            drm_wf(final(self)@),
    {
        match edit {
            OutputEdit::Primary => {
                self.clear_primary();
                assert(output_ids(self.outputs@) =~= output_ids(old(self).outputs@));
                match self.find(target) {
                    None => Err(DisplayError::NotFound(target.clone())),
                    Some(k) => {
                        self.outputs[k].is_primary = true;
                        self.dirty = true;
                        Ok(())
                    },
                }
            },
            OutputEdit::CloneFrom(source) => {
                match self.find(source) {
                    None => Err(DisplayError::NotFound(source.clone())),
                    Some(s) => match self.find(target) {
                        None => Err(DisplayError::NotFound(target.clone())),
                        Some(k) => {
                            let geometry = self.outputs[s].geometry;
                            let refresh_rate = self.outputs[s].refresh_rate;
                            let rotation = self.outputs[s].rotation;
                            let scale_percent = self.outputs[s].scale_percent;
                            self.outputs[k].geometry = geometry;
                            self.outputs[k].refresh_rate = refresh_rate;
                            self.outputs[k].rotation = rotation;
                            self.outputs[k].scale_percent = scale_percent;
                            self.dirty = true;
                            assert(self.outputs@ =~= drm_edit(old(self)@, *target, *edit).0.outputs);
                            Ok(())
                        },
                    },
                }
            },
            _ => match self.find(target) {
                None => Err(DisplayError::NotFound(target.clone())),
                Some(k) => {
                    let changed = self.edit_field(k, edit);
                    if !changed {
                        assert(self.outputs@ =~= old(self).outputs@);
                        Ok(())
                    } else {
                        match edit {
                            OutputEdit::Rotation(_) | OutputEdit::Position(_) | OutputEdit::Hdr(
                                _,
                                _,
                            ) => self.stage_props(target, edit),
                            _ => {
                                self.dirty = true;
                                Ok(())
                            },
                        }
                    }
                },
            },
        }
    }

    fn stage_props(&mut self, target: &DisplayId, edit: &OutputEdit) -> (res: DisplayResult<()>)
        requires
            drm_wf(old(self)@),
        ensures
            final(self).outputs@ == old(self).outputs@,
            (final(self)@, res) == drm_stage_props(
                DrmTopologyView { outputs: old(self).outputs@, ..old(self)@ },
                *target,
                old(self).outputs@,
                *edit,
            ),
            drm_wf(final(self)@),
    {
        match self.find_resources(target) {
            None => Err(DisplayError::NotFound(target.clone())),
            Some(res) => {
                proof {
                    lemma_first_index(resource_ids(self.resource_map@), target@);
                }
                match edit {
                    OutputEdit::Rotation(r) => {
                        if let Some(prop) = self.find_prop_id(res.connector_id, "rotation") {
                            proof { lemma_prop_nonzero(self.property_cache.props@, res.connector_id, "rotation"@); }
                            atomic_req_add(
                                &mut self.atomic_req,
                                res.primary_plane_id,
                                prop,
                                rotation_to_drm_value(*r),
                            );
                            self.dirty = true;
                        }
                        Ok(())
                    },
                    OutputEdit::Position(pos) => {
                        if let Some(prop_x) = self.find_prop_id(res.connector_id, "CRTC_X") {
                            proof { lemma_prop_nonzero(self.property_cache.props@, res.connector_id, "CRTC_X"@); }
                            atomic_req_add(&mut self.atomic_req, res.primary_plane_id, prop_x, pos.x as u64);
                        }
                        if let Some(prop_y) = self.find_prop_id(res.connector_id, "CRTC_Y") {
                            proof { lemma_prop_nonzero(self.property_cache.props@, res.connector_id, "CRTC_Y"@); }
                            atomic_req_add(&mut self.atomic_req, res.primary_plane_id, prop_y, pos.y as u64);
                        }
                        self.dirty = true;
                        Ok(())
                    },
                    OutputEdit::Hdr(state, _) => {
                        if let Some(prop) = self.find_prop_id(res.connector_id, "HDR_OUTPUT_METADATA") {
                            proof { lemma_prop_nonzero(self.property_cache.props@, res.connector_id, "HDR_OUTPUT_METADATA"@); }
                            let val: u64 = if *state == HdrState::Enabled {
                                1
                            } else {
                                0
                            };
                            atomic_req_add(&mut self.atomic_req, res.connector_id, prop, val);
                            self.dirty = true;
                        }
                        Ok(())
                    },
                    _ => Ok(()),
                }
            },
        }
    }

    fn clear_primary(&mut self)
        ensures
            final(self)@ == (DrmTopologyView { outputs: drm_clear_primary(old(self)@.outputs), ..old(self)@ }),
    {
        let n = self.outputs.len();
        for i in 0..n
            invariant
                n == self.outputs@.len(),
                n == old(self).outputs@.len(),
                self.dirty == old(self).dirty,
                self.atomic_req == old(self).atomic_req,
                self.resource_map == old(self).resource_map,
                self.property_cache == old(self).property_cache,
                forall|j: int| 0 <= j < i ==> self.outputs@[j] == (OutputState { is_primary: false, ..old(self).outputs@[j] }),
                forall|j: int| i <= j < n ==> self.outputs@[j] == old(self).outputs@[j],
        {
            self.outputs[i].is_primary = false;
        }
        assert(self.outputs@ =~= drm_clear_primary(old(self)@.outputs));
    }

    fn edit_field(&mut self, k: usize, edit: &OutputEdit) -> (changed: bool)
        requires
            k < old(self).outputs@.len(),
        ensures
            (final(self).outputs@[k as int], changed) == drm_field_edit(old(self).outputs@[k as int], *edit),
            final(self).outputs@ == old(self).outputs@.update(k as int, final(self).outputs@[k as int]),
            final(self).dirty == old(self).dirty,
            final(self).atomic_req == old(self).atomic_req,
            final(self).resource_map == old(self).resource_map,
            final(self).property_cache == old(self).property_cache,
    {
        let out = &mut self.outputs[k];
        match edit {
            OutputEdit::Rotation(r) => {
                let changed = out.rotation != *r;
                out.rotation = *r;
                changed
            },
            OutputEdit::Resolution(x) => {
                let changed = out.geometry.size != *x;
                out.geometry.size = *x;
                changed
            },
            OutputEdit::Position(p) => {
                let changed = out.geometry.origin != *p;
                out.geometry.origin = *p;
                changed
            },
            OutputEdit::RefreshRate(r) => {
                let changed = out.refresh_rate != *r;
                out.refresh_rate = *r;
                changed
            },
            OutputEdit::Hdr(s, m) => {
                let changed = out.hdr_state != *s || out.hdr_mode != *m;
                out.hdr_state = *s;
                out.hdr_mode = *m;
                changed
            },
            OutputEdit::Scale(s) => {
                let changed = out.scale_percent != *s;
                out.scale_percent = *s;
                changed
            },
            OutputEdit::Enabled(b) => {
                let changed = out.enabled != *b;
                out.enabled = *b;
                changed
            },
            _ => false,
        }
    }

    /// The geometric half of validation, ahead of the kernel's test commit:
    /// no two enabled outputs may overlap.
    pub fn validate_geometry(&self) -> (res: DisplayResult<()>)
        ensures
            res is Ok <==> !has_overlap(self.outputs@),
            res is Err ==> res->Err_0 is ConfigurationRejected,
    {
        check_overlap(self.outputs.as_slice())
    }

    /// Whether a commit has anything to send to the kernel.
    pub fn needs_commit(&self) -> (res: bool)
        ensures
            res == self.dirty,
    {
        self.dirty
    }

    /// Resets the staged property writes after a successful atomic flush.
    pub fn finish_commit(&mut self)
        ensures
            final(self).outputs@ == old(self).outputs@,
            final(self).resource_map@ == old(self).resource_map@,
            final(self).property_cache.props@ == old(self).property_cache.props@,
            final(self)@.props == no_props(),
            !final(self).dirty,
    {
        self.atomic_req = atomic_req_new();
        self.dirty = false;
    }

    /// Wakes every inactive output and returns the identifiers of those to
    /// turn off again later: all but the output named `keep_active`, which
    /// stays enabled after a restore.
    pub fn snapshot_wake_inactive_outputs(&mut self, keep_active: Option<&DisplayId>) -> (res: Vec<
        DisplayId,
    >)
        ensures
            final(self).outputs@ == woken_outputs(old(self).outputs@),
            res@.map_values(|d: DisplayId| d@) == woken_ids(old(self).outputs@, keep_view(keep_active)),
            final(self).dirty == old(self).dirty,
            final(self).atomic_req == old(self).atomic_req,
            final(self).resource_map == old(self).resource_map,
            final(self).property_cache == old(self).property_cache,
    {
        wake_outputs(&mut self.outputs, keep_active)
    }

    /// Disables again the outputs named in `inactive_ids`, as recorded by
    /// [`snapshot_wake_inactive_outputs`](Self::snapshot_wake_inactive_outputs).
    pub fn restore_inactive_outputs(&mut self, inactive_ids: &[DisplayId])
        ensures
            final(self).outputs@ == restored_outputs(
                old(self).outputs@,
                inactive_ids@.map_values(|d: DisplayId| d@),
            ),
            final(self).dirty == old(self).dirty,
            final(self).atomic_req == old(self).atomic_req,
            final(self).resource_map == old(self).resource_map,
            final(self).property_cache == old(self).property_cache,
    {
        restore_outputs(&mut self.outputs, inactive_ids)
    }
}

proof fn lemma_prop_nonzero(props: Seq<(u32, Vec<(String, u32)>)>, conn: u32, name: Seq<char>)
    requires
        cache_ids_nonzero(props),
    ensures
        prop_lookup(props, conn, name) matches Some(p) ==> p != 0,
{
    lemma_first_index(displmgr_drm_sys::cache_connectors(props), conn);
    if let Some(c) = first_index(displmgr_drm_sys::cache_connectors(props), conn) {
        lemma_first_index(displmgr_drm_sys::prop_names(props[c].1@), name);
    }
}

/// Staging an edit never changes which outputs the topology holds, nor the
/// kernel objects and property ids it knows.
pub proof fn lemma_drm_edit_keeps_outputs(t: DrmTopologyView, target: DisplayId, e: OutputEdit)
    ensures
        output_ids(drm_edit(t, target, e).0.outputs) == output_ids(t.outputs),
        drm_edit(t, target, e).0.resources == t.resources,
        drm_edit(t, target, e).0.cache == t.cache,
{
    lemma_first_index(output_ids(t.outputs), target@);
    if let OutputEdit::CloneFrom(s) = e {
        lemma_first_index(output_ids(t.outputs), s@);
    }
    assert(output_ids(drm_edit(t, target, e).0.outputs) =~= output_ids(t.outputs));
}

/// A staged edit that succeeds shows in the output's state (read after
/// write).
pub proof fn lemma_drm_read_after_write(t: DrmTopologyView, target: DisplayId, e: OutputEdit)
    requires
        !(e is CloneFrom),
        drm_edit(t, target, e).1 is Ok,
    ensures
        first_index(output_ids(t.outputs), target@) matches Some(k) && view_reflects(
            drm_edit(t, target, e).0.outputs[k]@,
            e,
        ),
{
    lemma_first_index(output_ids(t.outputs), target@);
}

/// A rotation change on an output whose kernel objects and `rotation`
/// property are known stages the DRM rotation bit on its primary plane.
pub proof fn lemma_drm_rotation_staged(t: DrmTopologyView, target: DisplayId, r: DisplayRotation)
    requires
        first_index(output_ids(t.outputs), target@) matches Some(k) && t.outputs[k].rotation != r,
        resource_lookup(t.resources, target@) matches Some(res) && prop_lookup(
            t.cache,
            res.connector_id,
            "rotation"@,
        ) is Some,
    ensures
        ({
            let res = resource_lookup(t.resources, target@)->0;
            let p = prop_lookup(t.cache, res.connector_id, "rotation"@)->0;
            let t2 = drm_edit(t, target, OutputEdit::Rotation(r)).0;
            &&& drm_edit(t, target, OutputEdit::Rotation(r)).1 is Ok
            &&& t2.props.contains_key((res.primary_plane_id, p))
            &&& t2.props[(res.primary_plane_id, p)] == drm_rotation_value(r)
            &&& t2.dirty
        }),
{
}

/// After an output is designated primary, it is the only primary output.
pub proof fn lemma_drm_primary_exclusive(t: DrmTopologyView, target: DisplayId)
    requires
        drm_edit(t, target, OutputEdit::Primary).1 is Ok,
    ensures
        forall|j: int|
            0 <= j < t.outputs.len() ==> (drm_edit(t, target, OutputEdit::Primary).0.outputs[j].is_primary
                <==> first_index(output_ids(t.outputs), target@) == Some(j)),
{
    lemma_first_index(output_ids(t.outputs), target@);
}

/// An edit that stages the value already present changes nothing at all.
pub proof fn lemma_drm_noop_edit(t: DrmTopologyView, target: DisplayId, e: OutputEdit)
    requires
        !(e is Primary),
        !(e is CloneFrom),
        first_index(output_ids(t.outputs), target@) matches Some(k) && !drm_field_edit(t.outputs[k], e).1,
    ensures
        drm_edit(t, target, e) == (t, Ok::<(), DisplayError>(())),
{
}

} // verus!
