//! Staging edits on a GDI topology. Every edit but the primary one changes
//! the output of the edited device; the primary is recorded and applied at
//! commit time.
use vstd::prelude::*;

use super::{gdi_wf, GdiTopology, GdiView};
use crate::backends::wake::{find_output, output_ids, restore_outputs, restored_outputs, with_kept_on, woken_ids,
    woken_outputs};
use crate::error::{DisplayError, DisplayResult};
use crate::traits::{first_index, OutputEdit};
use crate::types::{DisplayId, OutputState};

verus! {

/// The output after a direct field edit.
pub open spec fn gdi_field_edit(o: OutputState, e: OutputEdit) -> OutputState {
    match e {
        OutputEdit::Rotation(r) => OutputState { rotation: r, ..o },
        OutputEdit::Resolution(x) => OutputState {
            geometry: crate::types::Rect { size: x, ..o.geometry },
            ..o
        },
        OutputEdit::Position(p) => OutputState {
            geometry: crate::types::Rect { origin: p, ..o.geometry },
            ..o
        },
        OutputEdit::RefreshRate(r) => OutputState { refresh_rate: r, ..o },
        OutputEdit::Hdr(s, m) => OutputState { hdr_state: s, hdr_mode: m, ..o },
        OutputEdit::Scale(p) => OutputState { scale_percent: p, ..o },
        OutputEdit::Enabled(b) => OutputState { enabled: b, ..o },
        _ => o,
    }
}

/// The topology after staging `e` on the device named `target`.
pub open spec fn gdi_edit_state(t: GdiView, target: Seq<char>, e: OutputEdit) -> GdiView {
    let k = first_index(output_ids(t.outputs), target);
    match e {
        OutputEdit::Primary => GdiView { primary: Some(target), ..t },
        OutputEdit::CloneFrom(src) => match first_index(output_ids(t.outputs), src@) {
            None => t,
            Some(s) => match k {
                None => t,
                Some(i) => GdiView {
                    outputs: t.outputs.update(
                        i,
                        OutputState {
                            geometry: t.outputs[s].geometry,
                            refresh_rate: t.outputs[s].refresh_rate,
                            rotation: t.outputs[s].rotation,
                            scale_percent: t.outputs[s].scale_percent,
                            ..t.outputs[i]
                        },
                    ),
                    ..t
                },
            },
        },
        _ => match k {
            None => t,
            Some(i) => GdiView { outputs: t.outputs.update(i, gdi_field_edit(t.outputs[i], e)), ..t },
        },
    }
}

/// The result the editor reports for staging `e` on the device named
/// `target`: the source of a clone must exist, then the target itself, but
/// the primary is recorded without a check.
pub open spec fn gdi_edit_result(t: GdiView, target: DisplayId, e: OutputEdit) -> DisplayResult<()> {
    let k = first_index(output_ids(t.outputs), target@);
    match e {
        OutputEdit::Primary => Ok(()),
        OutputEdit::CloneFrom(src) => match first_index(output_ids(t.outputs), src@) {
            None => Err(DisplayError::NotFound(src)),
            Some(_) => if k is Some {
                Ok(())
            } else {
                Err(DisplayError::NotFound(target))
            },
        },
        _ => if k is Some {
            Ok(())
        } else {
            Err(DisplayError::NotFound(target))
        },
    }
}

/// The effect of staging `e` on the device named `target`: the new topology
/// and the result the editor reports.
pub open spec fn gdi_edit(t: GdiView, target: DisplayId, e: OutputEdit) -> (GdiView, DisplayResult<()>) {
    (gdi_edit_state(t, target@, e), gdi_edit_result(t, target, e))
}

impl GdiTopology {
    /// Checks that an editor can be opened on the device named `id`.
    pub fn edit_output(&self, id: &DisplayId) -> (res: DisplayResult<()>)
        ensures
            res is Ok <==> first_index(output_ids(self@.outputs), id@) is Some,
            res is Err ==> res == Err::<(), DisplayError>(DisplayError::NotFound(*id)),
    {
        match find_output(&self.outputs, id) {
            Some(_) => Ok(()),
            None => Err(DisplayError::NotFound(id.clone())),
        }
    }

    /// Stages `edit` on the device named `target`.
    pub fn apply_edit(&mut self, target: &DisplayId, edit: &OutputEdit) -> (res: DisplayResult<()>)
        ensures
            (final(self)@, res) == gdi_edit(old(self)@, *target, *edit),
            gdi_wf(old(self)@) ==> gdi_wf(final(self)@),
    {
        let ghost t = self@;
        proof {
            lemma_gdi_edit_keeps_names(t, *target, *edit);
        }
        match edit {
            OutputEdit::Primary => {
                self.target_primary_id = Some(target.0.clone());
                Ok(())
            },
            OutputEdit::CloneFrom(src) => match find_output(&self.outputs, src) {
                None => Err(DisplayError::NotFound(src.clone())),
                Some(s) => match find_output(&self.outputs, target) {
                    None => Err(DisplayError::NotFound(target.clone())),
                    Some(i) => {
                        let geometry = self.outputs[s].geometry;
                        let refresh_rate = self.outputs[s].refresh_rate;
                        let rotation = self.outputs[s].rotation;
                        let scale_percent = self.outputs[s].scale_percent;
                        self.outputs[i].geometry = geometry;
                        self.outputs[i].refresh_rate = refresh_rate;
                        self.outputs[i].rotation = rotation;
                        self.outputs[i].scale_percent = scale_percent;
                        proof {
                            assert(self@.outputs =~= gdi_edit(t, *target, *edit).0.outputs);
                        }
                        Ok(())
                    },
                },
            },
            _ => match find_output(&self.outputs, target) {
                None => Err(DisplayError::NotFound(target.clone())),
                Some(i) => {
                    self.stage_field(i, edit);
                    proof {
                        assert(self@.outputs =~= gdi_edit(t, *target, *edit).0.outputs);
                    }
                    Ok(())
                },
            },
        }
    }

    fn stage_field(&mut self, i: usize, edit: &OutputEdit)
        requires
            i < old(self)@.outputs.len(),
        ensures
            final(self)@ == (GdiView {
                outputs: old(self)@.outputs.update(i as int, gdi_field_edit(old(self)@.outputs[i as int], *edit)),
                ..old(self)@
            }),
    {
        let ghost t = self@;
        let out = &mut self.outputs[i];
        match edit {
            OutputEdit::Rotation(r) => {
                out.rotation = *r;
            },
            OutputEdit::Resolution(x) => {
                out.geometry.size = *x;
            },
            OutputEdit::Position(p) => {
                out.geometry.origin = *p;
            },
            OutputEdit::RefreshRate(r) => {
                out.refresh_rate = *r;
            },
            OutputEdit::Hdr(s, m) => {
                out.hdr_state = *s;
                out.hdr_mode = *m;
            },
            OutputEdit::Scale(p) => {
                out.scale_percent = *p;
            },
            OutputEdit::Enabled(b) => {
                out.enabled = *b;
            },
            _ => {},
        }
        proof {
            assert(self@.outputs =~= t.outputs.update(i as int, gdi_field_edit(t.outputs[i as int], *edit)));
        }
    }

    /// Enables every output, and returns the names of those that were
    /// disabled, apart from `keep_active`, so that they can be disabled again
    /// afterwards.
    pub fn snapshot_wake_inactive_outputs(&mut self, keep_active: Option<&DisplayId>) -> (res: Vec<String>)
        ensures
            final(self)@ == (GdiView { outputs: woken_outputs(old(self)@.outputs), ..old(self)@ }),
            gdi_wf(old(self)@) ==> gdi_wf(final(self)@),
            res@.map_values(|s: String| s@) == woken_ids(
                old(self)@.outputs,
                crate::backends::wake::keep_view(keep_active),
            ),
    {
        let ghost keep = crate::backends::wake::keep_view(keep_active);
        let ghost orig = self@.outputs;
        let mut previously_inactive: Vec<String> = Vec::new();
        let n = self.outputs.len();
        for i in 0..n
            invariant
                n == self@.outputs.len(),
                n == orig.len(),
                orig == old(self)@.outputs,
                keep == crate::backends::wake::keep_view(keep_active),
                self@.persist == old(self)@.persist,
                self@.saved == old(self)@.saved,
                self@.primary == old(self)@.primary,
                forall|j: int| 0 <= j < i ==> #[trigger] self@.outputs[j] == woken_outputs(orig)[j],
                forall|j: int| i <= j < n ==> #[trigger] self@.outputs[j] == orig[j],
                previously_inactive@.map_values(|s: String| s@) == woken_ids(orig.subrange(0, i as int), keep),
        {
            proof {
                assert(orig.subrange(0, i + 1).drop_last() =~= orig.subrange(0, i as int));
            }
            if !self.outputs[i].enabled {
                let skip = match keep_active {
                    Some(k) => self.outputs[i].identity.id.same_as(k),
                    None => false,
                };
                if !skip {
                    let ghost before = previously_inactive@;
                    let id = self.outputs[i].identity.id.0.clone();
                    previously_inactive.push(id);
                    proof {
                        assert(previously_inactive@.map_values(|s: String| s@) =~= before.map_values(
                            |s: String| s@,
                        ).push(orig[i as int].identity.id@));
                    }
                }
                self.outputs[i].enabled = true;
            }
            proof {
                assert(self@.outputs[i as int] == woken_outputs(orig)[i as int]);
            }
        }
        proof {
            assert(orig.subrange(0, n as int) =~= orig);
            assert(self@.outputs =~= woken_outputs(orig));
            crate::backends::wake::lemma_wake_enables(orig);
        }
        previously_inactive
    }

    /// Disables again the first output of each name in `inactive_ids`.
    pub fn restore_inactive_outputs(&mut self, inactive_ids: &[String])
        ensures
            final(self)@ == (GdiView {
                outputs: restored_outputs(old(self)@.outputs, inactive_ids@.map_values(|s: String| s@)),
                ..old(self)@
            }),
            gdi_wf(old(self)@) ==> gdi_wf(final(self)@),
    {
        proof {
            crate::backends::wake::lemma_restore_keeps_ids(
                old(self)@.outputs,
                inactive_ids@.map_values(|s: String| s@),
            );
        }
        let mut ids: Vec<DisplayId> = Vec::new();
        let m = inactive_ids.len();
        for i in 0..m
            invariant
                m == inactive_ids@.len(),
                ids@.map_values(|d: DisplayId| d@) == inactive_ids@.subrange(0, i as int).map_values(
                    |s: String| s@,
                ),
        {
            let ghost before = ids@;
            let d = DisplayId(inactive_ids[i].clone());
            assert(d@ == inactive_ids@[i as int]@);
            ids.push(d);
            proof {
                let lhs = ids@.map_values(|d: DisplayId| d@);
                let rhs = inactive_ids@.subrange(0, i + 1).map_values(|s: String| s@);
                assert(inactive_ids@.subrange(0, i + 1) =~= inactive_ids@.subrange(0, i as int).push(
                    inactive_ids@[i as int],
                ));
                assert(lhs =~= before.map_values(|d: DisplayId| d@).push(d@));
                assert(rhs =~= inactive_ids@.subrange(0, i as int).map_values(|s: String| s@).push(
                    inactive_ids@[i as int]@,
                ));
                assert(lhs =~= rhs);
            }
        }
        proof {
            assert(inactive_ids@.subrange(0, m as int) =~= inactive_ids@);
        }
        restore_outputs(&mut self.outputs, ids.as_slice());
    }
}

/// Staging an edit keeps the device names and the captured records.
proof fn lemma_gdi_edit_keeps_names(t: GdiView, target: DisplayId, e: OutputEdit)
    ensures
        output_ids(gdi_edit(t, target, e).0.outputs) == output_ids(t.outputs),
        gdi_edit(t, target, e).0.saved == t.saved,
{
    let post = gdi_edit(t, target, e).0.outputs;
    crate::traits::lemma_first_index(output_ids(t.outputs), target@);
    if let OutputEdit::CloneFrom(src) = e {
        crate::traits::lemma_first_index(output_ids(t.outputs), src@);
    }
    assert(post.len() == t.outputs.len());
    assert forall|j: int| 0 <= j < t.outputs.len() implies #[trigger] post[j].identity == t.outputs[j].identity by {
        match e {
            OutputEdit::CloneFrom(_) => {},
            OutputEdit::Primary => {},
            _ => {},
        }
    }
    assert(output_ids(post) =~= output_ids(t.outputs));
}

/// A staged field edit shows in the device's output (read after write) and
/// no other output changes.
pub proof fn lemma_gdi_read_after_write(t: GdiView, target: DisplayId, e: OutputEdit)
    requires
        !(e is CloneFrom),
        !(e is Primary),
        gdi_edit(t, target, e).1 is Ok,
    ensures
        first_index(output_ids(t.outputs), target@) matches Some(k) && crate::traits::view_reflects(
            gdi_edit(t, target, e).0.outputs[k]@,
            e,
        ) && forall|j: int| 0 <= j < t.outputs.len() && j != k ==> gdi_edit(t, target, e).0.outputs[j] == t.outputs[j],
{
    crate::traits::lemma_first_index(output_ids(t.outputs), target@);
}

/// Cloning copies the source's geometry, refresh rate, rotation and scale
/// onto the edited device; nothing else changes.
pub proof fn lemma_gdi_clone_copies(t: GdiView, target: DisplayId, source: DisplayId)
    requires
        gdi_edit(t, target, OutputEdit::CloneFrom(source)).1 is Ok,
    ensures
        ({
            let k = first_index(output_ids(t.outputs), target@)->Some_0;
            let s = first_index(output_ids(t.outputs), source@)->Some_0;
            let post = gdi_edit(t, target, OutputEdit::CloneFrom(source)).0;
            &&& post.outputs.len() == t.outputs.len()
            &&& post.outputs[k] == (OutputState {
                geometry: t.outputs[s].geometry,
                refresh_rate: t.outputs[s].refresh_rate,
                rotation: t.outputs[s].rotation,
                scale_percent: t.outputs[s].scale_percent,
                ..t.outputs[k]
            })
            &&& forall|j: int| 0 <= j < t.outputs.len() && j != k ==> post.outputs[j] == t.outputs[j]
            &&& post.saved == t.saved && post.primary == t.primary && post.persist == t.persist
        }),
{
    crate::traits::lemma_first_index(output_ids(t.outputs), target@);
    crate::traits::lemma_first_index(output_ids(t.outputs), source@);
}

/// Designating a primary only records the device; no output changes.
pub proof fn lemma_gdi_primary_recorded(t: GdiView, target: DisplayId)
    ensures
        gdi_edit(t, target, OutputEdit::Primary) == (GdiView { primary: Some(target@), ..t }, Ok::<
            (),
            DisplayError,
        >(())),
{
}

/// Waking every output and then restoring the names the wake reported puts
/// every output back as it was, except that the one kept active stays on.
pub proof fn lemma_gdi_wake_restore(t: GdiView, keep: Option<Seq<char>>)
    requires
        gdi_wf(t),
    ensures
        restored_outputs(woken_outputs(t.outputs), woken_ids(t.outputs, keep)) == with_kept_on(t.outputs, keep),
{
    assert forall|a: int, b: int| 0 <= a < b < t.outputs.len() implies t.outputs[a].identity.id@
        != t.outputs[b].identity.id@ by {
        assert(output_ids(t.outputs)[a] != output_ids(t.outputs)[b]);
    }
    crate::backends::wake::lemma_wake_restore(t.outputs, keep);
}

} // verus!
