//! Staging edits on a CCD topology: each edit changes the path and mode
//! records that the next configuration will carry, and the matching output
//! snapshot.
use vstd::prelude::*;

use super::displmgr_ccd_api::rotation_to_ccd;
use super::displmgr_ccd_sys::{CcdMode, DISPLAYCONFIG_PATH_ACTIVE, DISPLAYCONFIG_PATH_MODE_IDX_INVALID};
use super::{
    ccd_edit, ccd_position, ccd_result, keyed_insert, keys_of, output_index, path_index, path_targets,
    update_output, CcdTopology, CcdView,
};
use crate::backends::wake::{find_output, output_ids};
use crate::error::{DisplayError, DisplayResult};
use crate::text::{decimal, parse_u32, parsed_u32, u32_to_decimal};
use crate::traits::{first_from, first_index, OutputEdit};
use crate::types::{
    is_default_output, DisplayId, DisplayRotation, Extent2D, HdrMode, HdrState, OutputState, Point2D,
};

verus! {

/// Binds `k` to `val` in a keyed list: the entry for `k` is replaced, or a
/// new one appended.
pub fn keyed_insert_exec<V: Copy>(v: &mut Vec<(u32, V)>, k: u32, val: V)
    ensures
        final(v)@ == keyed_insert(old(v)@, k, val),
{
    let n = v.len();
    let ghost keys = keys_of(old(v)@);
    let mut i: usize = 0;
    while i < n
        invariant
            n == v@.len(),
            v@ == old(v)@,
            keys == keys_of(old(v)@),
            i <= n,
            first_index(keys, k) == first_from(keys, k, i as int),
        decreases n - i,
    {
        if v[i].0 == k {
            v.set(i, (k, val));
            return;
        }
        i = i + 1;
    }
    v.push((k, val));
}

fn missing(target: u32) -> (res: DisplayError)
    ensures
        res matches DisplayError::NotFound(d) && d@ == decimal(target as nat),
{
    DisplayError::NotFound(DisplayId(u32_to_decimal(target)))
}

impl CcdTopology {
    /// Position of the first path of `target`.
    pub fn find_path(&self, target: u32) -> (res: Option<usize>)
        ensures
            match res {
                Some(k) => path_index(self@.paths, target) == Some(k as int) && k < self@.paths.len(),
                None => path_index(self@.paths, target) is None,
            },
    {
        let n = self.data.paths.len();
        let ghost ids = path_targets(self@.paths);
        let mut i: usize = 0;
        while i < n
            invariant
                n == self@.paths.len(),
                ids == path_targets(self@.paths),
                i <= n,
                first_index(ids, target) == first_from(ids, target, i as int),
            decreases n - i,
        {
            if self.data.paths[i].target_id == target {
                return Some(i);
            }
            i = i + 1;
        }
        None
    }

    fn find_target_output(&self, target: u32) -> (res: Option<usize>)
        ensures
            match res {
                Some(k) => output_index(self@.outputs, target) == Some(k as int) && k < self@.outputs.len(),
                None => output_index(self@.outputs, target) is None,
            },
    {
        let id = DisplayId(u32_to_decimal(target));
        find_output(&self.outputs, &id)
    }

    /// The snapshot of `target`, or the default output state when there is
    /// none.
    pub fn get_state(&self, target: u32) -> (res: OutputState)
        ensures
            match output_index(self@.outputs, target) {
                Some(k) => res@ == self@.outputs[k]@,
                None => is_default_output(res@),
            },
    {
        match self.find_target_output(target) {
            Some(k) => self.outputs[k].clone(),
            None => OutputState::default(),
        }
    }

    /// Opens an editor on the output named `id`: its name must be a target
    /// id that some path carries. Returns that target id.
    pub fn edit_output(&self, id: &DisplayId) -> (res: DisplayResult<u32>)
        ensures
            match parsed_u32(id@) {
                Some(t) => if path_index(self@.paths, t) is Some {
                    res == Ok::<u32, DisplayError>(t)
                } else {
                    res == Err::<u32, DisplayError>(DisplayError::NotFound(*id))
                },
                None => res == Err::<u32, DisplayError>(DisplayError::NotFound(*id)),
            },
    {
        match parse_u32(id.0.as_str()) {
            None => Err(DisplayError::NotFound(id.clone())),
            Some(t) => match self.find_path(t) {
                Some(_) => Ok(t),
                None => Err(DisplayError::NotFound(id.clone())),
            },
        }
    }

    /// Toggles writing the configuration to the registry.
    pub fn set_persistence(&mut self, enabled: bool)
        ensures
            final(self)@ == (CcdView { persist: enabled, ..old(self)@ }),
    {
        self.persist = enabled;
    }

    fn stage_position(&mut self, target: u32, p: Point2D) -> (res: DisplayResult<()>)
        ensures
            final(self)@ == ccd_position(old(self)@, target, p).0,
            ccd_result(res, ccd_position(old(self)@, target, p).1, target, OutputEdit::Position(p)),
    {
        match self.find_path(target) {
            None => Err(missing(target)),
            Some(pi) => {
                let idx = self.data.paths[pi].source_mode_idx;
                if (idx as usize) < self.data.modes.len() {
                    match self.data.modes[idx as usize] {
                        CcdMode::Source { width, height, .. } => {
                            self.data.modes.set(idx as usize, CcdMode::Source { x: p.x, y: p.y, width, height });
                        },
                        _ => {},
                    }
                }
                match self.find_target_output(target) {
                    Some(k) => {
                        self.outputs[k].geometry.origin = p;
                    },
                    None => {},
                }
                self.dirty = true;
                proof {
                    let t = old(self)@;
                    assert(self@.modes =~= ccd_position(t, target, p).0.modes);
                    assert(self@.outputs =~= ccd_position(t, target, p).0.outputs);
                }
                Ok(())
            },
        }
    }

    fn stage_rotation(&mut self, target: u32, r: DisplayRotation) -> (res: DisplayResult<()>)
        ensures
            final(self)@ == ccd_edit(old(self)@, target, OutputEdit::Rotation(r)).0,
            ccd_result(
                res,
                ccd_edit(old(self)@, target, OutputEdit::Rotation(r)).1,
                target,
                OutputEdit::Rotation(r),
            ),
    {
        let ghost t = self@;
        let k = self.find_target_output(target);
        let cur = match k {
            Some(i) => self.outputs[i].rotation,
            None => crate::types::DisplayRotation::Rotate0,
        };
        if cur == r {
            return Ok(());
        }
        match self.find_path(target) {
            None => Err(missing(target)),
            Some(pi) => {
                self.data.paths[pi].rotation = rotation_to_ccd(r);
                match k {
                    Some(i) => {
                        self.outputs[i].rotation = r;
                    },
                    None => {},
                }
                self.dirty = true;
                proof {
                    assert(self@.paths =~= ccd_edit(t, target, OutputEdit::Rotation(r)).0.paths);
                    assert(self@.outputs =~= ccd_edit(t, target, OutputEdit::Rotation(r)).0.outputs);
                }
                Ok(())
            },
        }
    }

    fn stage_resolution(&mut self, target: u32, x: Extent2D) -> (res: DisplayResult<()>)
        ensures
            final(self)@ == ccd_edit(old(self)@, target, OutputEdit::Resolution(x)).0,
            ccd_result(
                res,
                ccd_edit(old(self)@, target, OutputEdit::Resolution(x)).1,
                target,
                OutputEdit::Resolution(x),
            ),
    {
        let ghost t = self@;
        let k = self.find_target_output(target);
        match self.find_path(target) {
            None => Err(missing(target)),
            Some(pi) => {
                let idx = self.data.paths[pi].source_mode_idx;
                if (idx as usize) < self.data.modes.len() {
                    match self.data.modes[idx as usize] {
                        CcdMode::Source { x: px, y: py, .. } => {
                            self.data.modes.set(
                                idx as usize,
                                CcdMode::Source { x: px, y: py, width: x.width, height: x.height },
                            );
                        },
                        _ => {},
                    }
                }
                match k {
                    Some(i) => {
                        self.outputs[i].geometry.size = x;
                    },
                    None => {},
                }
                self.dirty = true;
                proof {
                    assert(self@.modes =~= ccd_edit(t, target, OutputEdit::Resolution(x)).0.modes);
                    assert(self@.outputs =~= ccd_edit(t, target, OutputEdit::Resolution(x)).0.outputs);
                }
                Ok(())
            },
        }
    }

    fn stage_refresh(&mut self, target: u32, rate: u32) -> (res: DisplayResult<()>)
        ensures
            final(self)@ == ccd_edit(old(self)@, target, OutputEdit::RefreshRate(rate)).0,
            ccd_result(
                res,
                ccd_edit(old(self)@, target, OutputEdit::RefreshRate(rate)).1,
                target,
                OutputEdit::RefreshRate(rate),
            ),
    {
        let ghost t = self@;
        let k = self.find_target_output(target);
        match self.find_path(target) {
            None => Err(missing(target)),
            Some(pi) => {
                let idx = self.data.paths[pi].target_mode_idx;
                if (idx as usize) < self.data.modes.len() {
                    match self.data.modes[idx as usize] {
                        CcdMode::Target { .. } => {
                            self.data.modes.set(
                                idx as usize,
                                CcdMode::Target { vsync_numerator: rate, vsync_denominator: 1000 },
                            );
                        },
                        _ => {},
                    }
                }
                match k {
                    Some(i) => {
                        self.outputs[i].refresh_rate = rate;
                    },
                    None => {},
                }
                self.dirty = true;
                proof {
                    assert(self@.modes =~= ccd_edit(t, target, OutputEdit::RefreshRate(rate)).0.modes);
                    assert(self@.outputs =~= ccd_edit(t, target, OutputEdit::RefreshRate(rate)).0.outputs);
                }
                Ok(())
            },
        }
    }

    fn stage_primary(&mut self, target: u32) -> (res: DisplayResult<()>)
        ensures
            final(self)@ == ccd_edit(old(self)@, target, OutputEdit::Primary).0,
            ccd_result(
                res,
                ccd_edit(old(self)@, target, OutputEdit::Primary).1,
                target,
                OutputEdit::Primary,
            ),
    {
        let ghost t = self@;
        let k = self.find_target_output(target);
        let n = self.outputs.len();
        for j in 0..n
            invariant
                n == self@.outputs.len(),
                n == t.outputs.len(),
                self@.paths == t.paths,
                self@.modes == t.modes,
                self@.persist == t.persist,
                self@.scales == t.scales,
                self@.hdr == t.hdr,
                self@.dirty == t.dirty,
                forall|q: int|
                    0 <= q < j ==> #[trigger] self@.outputs[q] == (OutputState {
                        is_primary: false,
                        ..t.outputs[q]
                    }),
                forall|q: int| j <= q < n ==> #[trigger] self@.outputs[q] == t.outputs[q],
        {
            self.outputs[j].is_primary = false;
        }
        proof {
            assert(output_ids(self@.outputs) =~= output_ids(t.outputs));
        }
        match k {
            Some(i) => {
                self.outputs[i].is_primary = true;
            },
            None => {},
        }
        let ghost marked = self@;
        proof {
            let kk: Option<int> = match k {
                Some(i) => Some(i as int),
                None => None,
            };
            let cleared = t.outputs.map_values(|o: OutputState| OutputState { is_primary: false, ..o });
            assert(self@.outputs =~= update_output(
                cleared,
                kk,
                |o: OutputState| OutputState { is_primary: true, ..o },
            ));
            assert(output_ids(cleared) =~= output_ids(t.outputs));
            assert(marked == (CcdView { outputs: self@.outputs, ..t }));
        }
        self.stage_position(target, Point2D { x: 0, y: 0 })
    }

    fn stage_hdr(&mut self, target: u32, s: HdrState, m: HdrMode) -> (res: DisplayResult<()>)
        ensures
            final(self)@ == ccd_edit(old(self)@, target, OutputEdit::Hdr(s, m)).0,
            ccd_result(
                res,
                ccd_edit(old(self)@, target, OutputEdit::Hdr(s, m)).1,
                target,
                OutputEdit::Hdr(s, m),
            ),
    {
        let ghost t = self@;
        let k = self.find_target_output(target);
        keyed_insert_exec(&mut self.staged_hdr, target, (s, m));
        match k {
            Some(i) => {
                self.outputs[i].hdr_state = s;
                self.outputs[i].hdr_mode = m;
            },
            None => {},
        }
        proof {
            assert(self@.outputs =~= ccd_edit(t, target, OutputEdit::Hdr(s, m)).0.outputs);
        }
        Ok(())
    }

    fn stage_scale(&mut self, target: u32, p: u32) -> (res: DisplayResult<()>)
        ensures
            final(self)@ == ccd_edit(old(self)@, target, OutputEdit::Scale(p)).0,
            ccd_result(
                res,
                ccd_edit(old(self)@, target, OutputEdit::Scale(p)).1,
                target,
                OutputEdit::Scale(p),
            ),
    {
        let ghost t = self@;
        let k = self.find_target_output(target);
        keyed_insert_exec(&mut self.staged_scales, target, p);
        match k {
            Some(i) => {
                self.outputs[i].scale_percent = p;
            },
            None => {},
        }
        proof {
            assert(self@.outputs =~= ccd_edit(t, target, OutputEdit::Scale(p)).0.outputs);
        }
        Ok(())
    }

    fn stage_enabled(&mut self, target: u32, b: bool) -> (res: DisplayResult<()>)
        ensures
            final(self)@ == ccd_edit(old(self)@, target, OutputEdit::Enabled(b)).0,
            ccd_result(
                res,
                ccd_edit(old(self)@, target, OutputEdit::Enabled(b)).1,
                target,
                OutputEdit::Enabled(b),
            ),
    {
        let ghost t = self@;
        let k = self.find_target_output(target);
        match self.find_path(target) {
            None => Err(missing(target)),
            Some(pi) => {
                if b {
                    let f = self.data.paths[pi].flags;
                    self.data.paths[pi].flags = f | DISPLAYCONFIG_PATH_ACTIVE;
                } else {
                    let f = self.data.paths[pi].flags;
                    self.data.paths[pi].flags = f & !DISPLAYCONFIG_PATH_ACTIVE;
                    self.data.paths[pi].source_mode_idx = DISPLAYCONFIG_PATH_MODE_IDX_INVALID;
                    self.data.paths[pi].target_mode_idx = DISPLAYCONFIG_PATH_MODE_IDX_INVALID;
                }
                match k {
                    Some(i) => {
                        self.outputs[i].enabled = b;
                    },
                    None => {},
                }
                self.dirty = true;
                proof {
                    assert(self@.paths =~= ccd_edit(t, target, OutputEdit::Enabled(b)).0.paths);
                    assert(self@.outputs =~= ccd_edit(t, target, OutputEdit::Enabled(b)).0.outputs);
                }
                Ok(())
            },
        }
    }

    fn stage_clone(&mut self, target: u32, src: &DisplayId) -> (res: DisplayResult<()>)
        ensures
            final(self)@ == ccd_edit(old(self)@, target, OutputEdit::CloneFrom(*src)).0,
            ccd_result(
                res,
                ccd_edit(old(self)@, target, OutputEdit::CloneFrom(*src)).1,
                target,
                OutputEdit::CloneFrom(*src),
            ),
    {
        let ghost t = self@;
        match parse_u32(src.0.as_str()) {
            None => Err(DisplayError::NotFound(src.clone())),
            Some(sid) => match self.find_path(sid) {
                None => Err(DisplayError::NotFound(src.clone())),
                Some(ps) => {
                    let src_idx = self.data.paths[ps].source_mode_idx;
                    let src_rotation = self.data.paths[ps].rotation;
                    match self.find_path(target) {
                        None => Err(missing(target)),
                        Some(pi) => {
                            let so = self.find_target_output(sid);
                            let k = self.find_target_output(target);
                            self.data.paths[pi].source_mode_idx = src_idx;
                            self.data.paths[pi].rotation = src_rotation;
                            match so {
                                None => {},
                                Some(s) => {
                                    let geometry = self.outputs[s].geometry;
                                    let refresh_rate = self.outputs[s].refresh_rate;
                                    let rotation = self.outputs[s].rotation;
                                    let scale_percent = self.outputs[s].scale_percent;
                                    let idx = self.data.paths[pi].target_mode_idx;
                                    if (idx as usize) < self.data.modes.len() {
                                        match self.data.modes[idx as usize] {
                                            CcdMode::Target { .. } => {
                                                self.data.modes.set(
                                                    idx as usize,
                                                    CcdMode::Target {
                                                        vsync_numerator: refresh_rate,
                                                        vsync_denominator: 1000,
                                                    },
                                                );
                                            },
                                            _ => {},
                                        }
                                    }
                                    keyed_insert_exec(&mut self.staged_scales, target, scale_percent);
                                    match k {
                                        Some(i) => {
                                            self.outputs[i].geometry = geometry;
                                            self.outputs[i].refresh_rate = refresh_rate;
                                            self.outputs[i].rotation = rotation;
                                            self.outputs[i].scale_percent = scale_percent;
                                        },
                                        None => {},
                                    }
                                },
                            }
                            self.dirty = true;
                            proof {
                                assert(self@.paths =~= ccd_edit(t, target, OutputEdit::CloneFrom(*src)).0.paths);
                                assert(self@.modes =~= ccd_edit(t, target, OutputEdit::CloneFrom(*src)).0.modes);
                                assert(self@.outputs =~= ccd_edit(t, target, OutputEdit::CloneFrom(*src)).0.outputs);
                            }
                            Ok(())
                        },
                    }
                },
            },
        }
    }

    /// Stages `edit` on the CCD target `target`.
    pub fn apply_edit(&mut self, target: u32, edit: &OutputEdit) -> (res: DisplayResult<()>)
        ensures
            final(self)@ == ccd_edit(old(self)@, target, *edit).0,
            ccd_result(res, ccd_edit(old(self)@, target, *edit).1, target, *edit),
    {
        match edit {
            OutputEdit::Rotation(r) => self.stage_rotation(target, *r),
            OutputEdit::Resolution(x) => self.stage_resolution(target, *x),
            OutputEdit::Position(p) => self.stage_position(target, *p),
            OutputEdit::RefreshRate(rate) => self.stage_refresh(target, *rate),
            OutputEdit::Primary => self.stage_primary(target),
            OutputEdit::Hdr(s, m) => self.stage_hdr(target, *s, *m),
            OutputEdit::Scale(p) => self.stage_scale(target, *p),
            OutputEdit::Enabled(b) => self.stage_enabled(target, *b),
            OutputEdit::CloneFrom(src) => self.stage_clone(target, src),
        }
    }
}

} // verus!
