//! CCD backend: the modern Windows display configuration path, modelled on
//! the path and mode records that `QueryDisplayConfig` returns.
//!
//! Edits are staged on those records and on the output snapshots; DPI scale
//! and HDR changes are kept apart, keyed by target, since they go out as
//! separate device-info requests after the configuration itself.
use vstd::prelude::*;

use self::displmgr_ccd_api::ccd_rotation_value;
use self::displmgr_ccd_sys::{
    CcdMode, CcdPath, CcdRawData, DISPLAYCONFIG_PATH_ACTIVE, DISPLAYCONFIG_PATH_MODE_IDX_INVALID,
};
use crate::backends::wake::output_ids;
use crate::error::DisplayResult;
use crate::text::{decimal, parsed_u32};
use crate::traits::{first_index, OutputEdit};
use crate::types::{DisplayRotation, HdrMode, HdrState, OutputState, Point2D};

/// CCD path and mode records, flag values and device-info payloads.
pub mod displmgr_ccd_sys;

/// Reading CCD records into output snapshots.
pub mod displmgr_ccd_api;

/// Staging edits on a CCD topology.
pub mod displmgr_ccd_editor;

/// Committing a CCD topology.
pub mod displmgr_ccd_commit;

verus! {

/// CCD (Connecting and Configuring Displays) topology: the records of the
/// last query with staged edits applied.
#[derive(Debug)]
pub struct CcdTopology {
    /// Raw CCD data including display paths and modes.
    pub data: CcdRawData,
    /// Snapshot of all display outputs as reported by the CCD subsystem.
    pub outputs: Vec<OutputState>,
    /// Whether changes should be persisted to the Windows Registry.
    pub persist: bool,
    /// Staged DPI scale percentages by target, one entry per target.
    pub staged_scales: Vec<(u32, u32)>,
    /// Staged HDR state and mode by target, one entry per target.
    pub staged_hdr: Vec<(u32, (HdrState, HdrMode))>,
    /// Whether the paths or modes have been modified since the last commit.
    pub dirty: bool,
}

/// The value of a [`CcdTopology`].
pub struct CcdView {
    pub paths: Seq<CcdPath>,
    pub modes: Seq<CcdMode>,
    pub outputs: Seq<OutputState>,
    pub persist: bool,
    pub scales: Seq<(u32, u32)>,
    pub hdr: Seq<(u32, (HdrState, HdrMode))>,
    pub dirty: bool,
}

impl View for CcdTopology {
    type V = CcdView;

    open spec fn view(&self) -> CcdView {
        CcdView {
            paths: self.data.paths@,
            modes: self.data.modes@,
            outputs: self.outputs@,
            persist: self.persist,
            scales: self.staged_scales@,
            hdr: self.staged_hdr@,
            dirty: self.dirty,
        }
    }
}

/// The keys of a keyed list, in order.
pub open spec fn keys_of<V>(s: Seq<(u32, V)>) -> Seq<u32> {
    s.map_values(|e: (u32, V)| e.0)
}

/// `s` with `k` bound to `v`: the entry for `k` is replaced, or a new one is
/// appended when there is none.
pub open spec fn keyed_insert<V>(s: Seq<(u32, V)>, k: u32, v: V) -> Seq<(u32, V)> {
    match first_index(keys_of(s), k) {
        Some(i) => s.update(i, (k, v)),
        None => s.push((k, v)),
    }
}

/// The target identifiers of the paths, in order.
pub open spec fn path_targets(paths: Seq<CcdPath>) -> Seq<u32> {
    paths.map_values(|p: CcdPath| p.target_id)
}

/// The position of the first path of `target`.
pub open spec fn path_index(paths: Seq<CcdPath>, target: u32) -> Option<int> {
    first_index(path_targets(paths), target)
}

/// The position of the first output snapshot of `target`, whose identifier
/// is the target in decimal.
pub open spec fn output_index(outputs: Seq<OutputState>, target: u32) -> Option<int> {
    first_index(output_ids(outputs), decimal(target as nat))
}

/// `outputs` with the snapshot at `k`, if any, replaced by `f` of it.
pub open spec fn update_output(
    outputs: Seq<OutputState>,
    k: Option<int>,
    f: spec_fn(OutputState) -> OutputState,
) -> Seq<OutputState> {
    match k {
        Some(i) => outputs.update(i, f(outputs[i])),
        None => outputs,
    }
}

/// `modes` with the source mode at `idx`, if it is one, given `f` of it.
pub open spec fn update_source_mode(
    modes: Seq<CcdMode>,
    idx: u32,
    f: spec_fn(CcdMode) -> CcdMode,
) -> Seq<CcdMode> {
    if (idx as int) < modes.len() && modes[idx as int] is Source {
        modes.update(idx as int, f(modes[idx as int]))
    } else {
        modes
    }
}

/// `modes` with the target mode at `idx`, if it is one, refreshing at
/// `rate` millihertz.
pub open spec fn update_target_mode(modes: Seq<CcdMode>, idx: u32, rate: u32) -> Seq<CcdMode> {
    if (idx as int) < modes.len() && modes[idx as int] is Target {
        modes.update(idx as int, CcdMode::Target { vsync_numerator: rate, vsync_denominator: 1000 })
    } else {
        modes
    }
}

/// Snapshot `o` with the geometry, refresh rate, rotation and scale of `src`.
pub open spec fn cloned_output(o: OutputState, src: OutputState) -> OutputState {
    OutputState {
        geometry: src.geometry,
        refresh_rate: src.refresh_rate,
        rotation: src.rotation,
        scale_percent: src.scale_percent,
        ..o
    }
}

/// How a staged edit ended.
pub enum CcdEditOutcome {
    /// The edit was staged.
    Done,
    /// No path of the edited target exists.
    MissingTarget,
    /// The source of a clone is not a target id, or has no path.
    MissingSource,
}

/// `r` is the result an editor reports for outcome `o` of edit `e` on
/// `target`.
pub open spec fn ccd_result(r: DisplayResult<()>, o: CcdEditOutcome, target: u32, e: OutputEdit) -> bool {
    match o {
        CcdEditOutcome::Done => r is Ok,
        CcdEditOutcome::MissingTarget => r matches Err(
            crate::error::DisplayError::NotFound(d),
        ) && d@ == decimal(target as nat),
        CcdEditOutcome::MissingSource => e matches OutputEdit::CloneFrom(src) && r == Err::<
            (),
            crate::error::DisplayError,
        >(crate::error::DisplayError::NotFound(src)),
    }
}

/// The rotation the editor reads for `target`: its snapshot's, or that of a
/// default snapshot when there is none.
pub open spec fn current_rotation(t: CcdView, target: u32) -> DisplayRotation {
    match output_index(t.outputs, target) {
        Some(k) => t.outputs[k].rotation,
        None => DisplayRotation::Rotate0,
    }
}

/// Moves the source mode of `target`'s path to `p`.
pub open spec fn ccd_position(t: CcdView, target: u32, p: Point2D) -> (CcdView, CcdEditOutcome) {
    match path_index(t.paths, target) {
        None => (t, CcdEditOutcome::MissingTarget),
        Some(pi) => (
            CcdView {
                modes: update_source_mode(
                    t.modes,
                    t.paths[pi].source_mode_idx,
                    |m: CcdMode|
                        match m {
                            CcdMode::Source { width, height, .. } => CcdMode::Source {
                                x: p.x,
                                y: p.y,
                                width,
                                height,
                            },
                            _ => m,
                        },
                ),
                outputs: update_output(
                    t.outputs,
                    output_index(t.outputs, target),
                    |o: OutputState| OutputState { geometry: crate::types::Rect { origin: p, ..o.geometry }, ..o },
                ),
                dirty: true,
                ..t
            },
            CcdEditOutcome::Done,
        ),
    }
}

/// The effect of staging `e` on the CCD target `target`: the new topology
/// and how the edit ended.
pub open spec fn ccd_edit(t: CcdView, target: u32, e: OutputEdit) -> (CcdView, CcdEditOutcome) {
    let k = output_index(t.outputs, target);
    match e {
        OutputEdit::Rotation(r) => if current_rotation(t, target) == r {
            (t, CcdEditOutcome::Done)
        } else {
            match path_index(t.paths, target) {
                None => (t, CcdEditOutcome::MissingTarget),
                Some(pi) => (
                    CcdView {
                        paths: t.paths.update(pi, CcdPath { rotation: ccd_rotation_value(r), ..t.paths[pi] }),
                        outputs: update_output(t.outputs, k, |o: OutputState| OutputState { rotation: r, ..o }),
                        dirty: true,
                        ..t
                    },
                    CcdEditOutcome::Done,
                ),
            }
        },
        OutputEdit::Resolution(x) => match path_index(t.paths, target) {
            None => (t, CcdEditOutcome::MissingTarget),
            Some(pi) => (
                CcdView {
                    modes: update_source_mode(
                        t.modes,
                        t.paths[pi].source_mode_idx,
                        |m: CcdMode|
                            match m {
                                CcdMode::Source { x: px, y: py, .. } => CcdMode::Source {
                                    x: px,
                                    y: py,
                                    width: x.width,
                                    height: x.height,
                                },
                                _ => m,
                            },
                    ),
                    outputs: update_output(
                        t.outputs,
                        k,
                        |o: OutputState| OutputState { geometry: crate::types::Rect { size: x, ..o.geometry }, ..o },
                    ),
                    dirty: true,
                    ..t
                },
                CcdEditOutcome::Done,
            ),
        },
        OutputEdit::Position(p) => ccd_position(t, target, p),
        OutputEdit::RefreshRate(rate) => match path_index(t.paths, target) {
            None => (t, CcdEditOutcome::MissingTarget),
            Some(pi) => {
                let idx = t.paths[pi].target_mode_idx;
                (
                    CcdView {
                        modes: update_target_mode(t.modes, idx, rate),
                        outputs: update_output(t.outputs, k, |o: OutputState| OutputState { refresh_rate: rate, ..o }),
                        dirty: true,
                        ..t
                    },
                    CcdEditOutcome::Done,
                )
            },
        },
        OutputEdit::Primary => {
            let cleared = t.outputs.map_values(|o: OutputState| OutputState { is_primary: false, ..o });
            let marked = update_output(cleared, k, |o: OutputState| OutputState { is_primary: true, ..o });
            ccd_position(CcdView { outputs: marked, ..t }, target, Point2D { x: 0, y: 0 })
        },
        OutputEdit::Hdr(s, m) => (
            CcdView {
                hdr: keyed_insert(t.hdr, target, (s, m)),
                outputs: update_output(t.outputs, k, |o: OutputState| OutputState { hdr_state: s, hdr_mode: m, ..o }),
                ..t
            },
            CcdEditOutcome::Done,
        ),
        OutputEdit::Scale(p) => (
            CcdView {
                scales: keyed_insert(t.scales, target, p),
                outputs: update_output(t.outputs, k, |o: OutputState| OutputState { scale_percent: p, ..o }),
                ..t
            },
            CcdEditOutcome::Done,
        ),
        OutputEdit::Enabled(b) => match path_index(t.paths, target) {
            None => (t, CcdEditOutcome::MissingTarget),
            Some(pi) => {
                let path = t.paths[pi];
                let path2 = if b {
                    CcdPath { flags: path.flags | DISPLAYCONFIG_PATH_ACTIVE, ..path }
                } else {
                    CcdPath {
                        flags: path.flags & !DISPLAYCONFIG_PATH_ACTIVE,
                        source_mode_idx: DISPLAYCONFIG_PATH_MODE_IDX_INVALID,
                        target_mode_idx: DISPLAYCONFIG_PATH_MODE_IDX_INVALID,
                        ..path
                    }
                };
                (
                    CcdView {
                        paths: t.paths.update(pi, path2),
                        outputs: update_output(t.outputs, k, |o: OutputState| OutputState { enabled: b, ..o }),
                        dirty: true,
                        ..t
                    },
                    CcdEditOutcome::Done,
                )
            },
        },
        OutputEdit::CloneFrom(src) => match parsed_u32(src@) {
            None => (t, CcdEditOutcome::MissingSource),
            Some(sid) => match path_index(t.paths, sid) {
                None => (t, CcdEditOutcome::MissingSource),
                Some(ps) => match path_index(t.paths, target) {
                    None => (t, CcdEditOutcome::MissingTarget),
                    Some(pi) => {
                        let paths = t.paths.update(
                            pi,
                            CcdPath {
                                source_mode_idx: t.paths[ps].source_mode_idx,
                                rotation: t.paths[ps].rotation,
                                ..t.paths[pi]
                            },
                        );
                        match output_index(t.outputs, sid) {
                            None => (CcdView { paths, dirty: true, ..t }, CcdEditOutcome::Done),
                            Some(so) => {
                                let so = t.outputs[so];
                                (
                                    CcdView {
                                        paths,
                                        modes: update_target_mode(
                                            t.modes,
                                            t.paths[pi].target_mode_idx,
                                            so.refresh_rate,
                                        ),
                                        scales: keyed_insert(t.scales, target, so.scale_percent),
                                        outputs: update_output(
                                            t.outputs,
                                            k,
                                            |o: OutputState| cloned_output(o, so),
                                        ),
                                        dirty: true,
                                        ..t
                                    },
                                    CcdEditOutcome::Done,
                                )
                            },
                        }
                    },
                },
            },
        },
    }
}

/// The snapshot reported for each path is named so that an editor opens on
/// it: its name parses back to the path's target id, which a path carries.
pub proof fn lemma_ccd_reported_names_open(paths: Seq<CcdPath>, modes: Seq<CcdMode>, name: Seq<char>, i: int)
    requires
        0 <= i < paths.len(),
    ensures
        parsed_u32(displmgr_ccd_api::path_output(paths[i], modes, name).id) == Some(paths[i].target_id),
        path_index(paths, paths[i].target_id) is Some,
{
    crate::text::lemma_parse_decimal(paths[i].target_id);
    crate::traits::lemma_first_index(path_targets(paths), paths[i].target_id);
    assert(path_targets(paths)[i] == paths[i].target_id);
}

/// A field edit that was staged shows in the target's snapshot (read after
/// write) and leaves every other snapshot as it was.
pub proof fn lemma_ccd_read_after_write(t: CcdView, target: u32, e: OutputEdit)
    requires
        !(e is CloneFrom),
        !(e is Primary),
        ccd_edit(t, target, e).1 is Done,
        output_index(t.outputs, target) is Some,
    ensures
        output_index(t.outputs, target) matches Some(k) && crate::traits::view_reflects(
            ccd_edit(t, target, e).0.outputs[k]@,
            e,
        ) && forall|j: int|
            0 <= j < t.outputs.len() && j != k ==> ccd_edit(t, target, e).0.outputs[j] == t.outputs[j],
        ccd_edit(t, target, e).0.outputs.len() == t.outputs.len(),
{
    crate::traits::lemma_first_index(output_ids(t.outputs), decimal(target as nat));
}

/// Cloning from a target that has a snapshot copies its geometry, refresh
/// rate, rotation and scale onto the edited target's snapshot (what the
/// editor then reads), stages the same scale for the edited target, and
/// points its path at the source's desktop mode; no other snapshot changes.
pub proof fn lemma_ccd_clone_copies(t: CcdView, target: u32, src: crate::types::DisplayId)
    requires
        ccd_edit(t, target, OutputEdit::CloneFrom(src)).1 is Done,
        parsed_u32(src@) matches Some(sid) && output_index(t.outputs, sid) is Some,
        output_index(t.outputs, target) is Some,
    ensures
        ({
            let sid = parsed_u32(src@)->Some_0;
            let so = t.outputs[output_index(t.outputs, sid)->Some_0];
            let k = output_index(t.outputs, target)->Some_0;
            let post = ccd_edit(t, target, OutputEdit::CloneFrom(src)).0;
            &&& post.outputs.len() == t.outputs.len()
            &&& post.outputs[k] == cloned_output(t.outputs[k], so)
            &&& forall|j: int| 0 <= j < t.outputs.len() && j != k ==> post.outputs[j] == t.outputs[j]
            &&& post.scales == keyed_insert(t.scales, target, so.scale_percent)
            &&& post.paths[path_index(t.paths, target)->Some_0].source_mode_idx
                == t.paths[path_index(t.paths, sid)->Some_0].source_mode_idx
        }),
{
    let sid = parsed_u32(src@)->Some_0;
    crate::traits::lemma_first_index(output_ids(t.outputs), decimal(target as nat));
    crate::traits::lemma_first_index(output_ids(t.outputs), decimal(sid as nat));
    crate::traits::lemma_first_index(path_targets(t.paths), target);
    crate::traits::lemma_first_index(path_targets(t.paths), sid);
}

/// After an output is designated primary, it is the only primary output,
/// whether or not moving it to the origin succeeded.
pub proof fn lemma_ccd_primary_exclusive(t: CcdView, target: u32)
    ensures
        ccd_edit(t, target, OutputEdit::Primary).0.outputs.len() == t.outputs.len(),
        forall|j: int|
            0 <= j < t.outputs.len() ==> (ccd_edit(t, target, OutputEdit::Primary).0.outputs[j].is_primary
                <==> output_index(t.outputs, target) == Some(j)),
{
    let id = decimal(target as nat);
    crate::traits::lemma_first_index(output_ids(t.outputs), id);
    let k = output_index(t.outputs, target);
    let cleared = t.outputs.map_values(|o: OutputState| OutputState { is_primary: false, ..o });
    assert(output_ids(cleared) =~= output_ids(t.outputs));
    let marked = update_output(cleared, k, |o: OutputState| OutputState { is_primary: true, ..o });
    assert(output_ids(marked) =~= output_ids(t.outputs));
    let mv = CcdView { outputs: marked, ..t };
    assert(output_index(marked, target) == k);
    let r = ccd_edit(t, target, OutputEdit::Primary).0;
    assert(r == ccd_position(mv, target, Point2D { x: 0, y: 0 }).0);
    assert forall|j: int| 0 <= j < t.outputs.len() implies (r.outputs[j].is_primary <==> k == Some(j)) by {
        assert(marked[j].is_primary <==> k == Some(j));
    }
}

/// Switching a target off that has a path clears the path's active flag and
/// detaches both of its modes.
pub proof fn lemma_ccd_disable(t: CcdView, target: u32)
    requires
        path_index(t.paths, target) is Some,
    ensures
        path_index(t.paths, target) matches Some(p) && {
            let q = ccd_edit(t, target, OutputEdit::Enabled(false)).0.paths[p];
            &&& q.flags & DISPLAYCONFIG_PATH_ACTIVE == 0
            &&& q.source_mode_idx == DISPLAYCONFIG_PATH_MODE_IDX_INVALID
            &&& q.target_mode_idx == DISPLAYCONFIG_PATH_MODE_IDX_INVALID
        },
{
    let p = path_index(t.paths, target)->Some_0;
    crate::traits::lemma_first_index(path_targets(t.paths), target);
    let f = t.paths[p].flags;
    assert((f & !0x0000_0001u32) & 0x0000_0001u32 == 0) by (bit_vector);
    let q = ccd_edit(t, target, OutputEdit::Enabled(false)).0.paths[p];
    assert(q.flags == f & !DISPLAYCONFIG_PATH_ACTIVE);
}

/// Keys stay unique in a keyed list as entries are bound.
pub proof fn lemma_keyed_insert_unique<V>(s: Seq<(u32, V)>, k: u32, v: V)
    requires
        forall|a: int, b: int| 0 <= a < b < s.len() ==> s[a].0 != s[b].0,
    ensures
        forall|a: int, b: int|
            0 <= a < b < keyed_insert(s, k, v).len() ==> keyed_insert(s, k, v)[a].0 != keyed_insert(s, k, v)[b].0,
        keyed_insert(s, k, v).len() == (if keys_of(s).contains(k) { s.len() } else { s.len() + 1 }),
{
    crate::traits::lemma_first_index(keys_of(s), k);
    let r = keyed_insert(s, k, v);
    match first_index(keys_of(s), k) {
        Some(i) => {
            assert(keys_of(s)[i] == k);
            assert forall|a: int, b: int| 0 <= a < b < r.len() implies r[a].0 != r[b].0 by {
                assert(r[a].0 == s[a].0);
                assert(r[b].0 == s[b].0);
            }
        },
        None => {
            assert forall|a: int| 0 <= a < s.len() implies s[a].0 != k by {
                assert(keys_of(s)[a] == s[a].0);
            }
            if keys_of(s).contains(k) {
                let w = choose|w: int| 0 <= w < keys_of(s).len() && keys_of(s)[w] == k;
                assert(keys_of(s)[w] == k);
            }
            assert forall|a: int, b: int| 0 <= a < b < r.len() implies r[a].0 != r[b].0 by {
                if b == s.len() {
                    assert(r[b].0 == k);
                    assert(r[a] == s[a]);
                } else {
                    assert(r[a] == s[a]);
                    assert(r[b] == s[b]);
                }
            }
        },
    }
}

} // verus!
