//! wlroots output management (`zwlr-output-management-v1`): the heads the
//! compositor announces, the edits staged on them, and the configuration a
//! commit sends back.
//!
//! The Wayland connection and protocol objects live in the platform layer,
//! which feeds the compositor's events into [`WlrInternalState`] and sends
//! the [`HeadConfig`] requests that [`WlrInternalState::commit_plan`] returns.
use vstd::prelude::*;
use vstd::string::StringExecFns;

use crate::backends::overlap::{check_overlap, has_overlap};
use crate::backends::wake::{
    find_output, keep_view, output_ids, restore_outputs, restored_outputs, wake_outputs, woken_ids,
    woken_outputs,
};
use crate::error::{DisplayError, DisplayResult};
use crate::traits::{first_from, first_index, lemma_first_index, view_reflects, OutputEdit};
use crate::types::{
    is_default_output, DisplayId, DisplayIdentity, DisplayRotation, Extent2D, HdrState, OutputState,
    Rect, VideoMode,
};

verus! {

/// The `wl_output` transform values a head can report or be given.
#[derive(Debug, Clone, Copy, PartialEq, Eq, Structural)]
pub enum WlTransform {
    /// No transform.
    Normal,
    /// 90 degrees counter-clockwise.
    Rotate90,
    /// 180 degrees.
    Rotate180,
    /// 270 degrees counter-clockwise.
    Rotate270,
    /// Flipped horizontally.
    Flipped,
    /// Flipped and rotated 90 degrees.
    Flipped90,
    /// Flipped and rotated 180 degrees.
    Flipped180,
    /// Flipped and rotated 270 degrees.
    Flipped270,
}

/// The rotation a head transform stands for; flipped transforms count as no
/// rotation.
pub open spec fn transform_rotation(t: WlTransform) -> DisplayRotation {
    match t {
        WlTransform::Rotate90 => DisplayRotation::Rotate90,
        WlTransform::Rotate180 => DisplayRotation::Rotate180,
        WlTransform::Rotate270 => DisplayRotation::Rotate270,
        _ => DisplayRotation::Rotate0,
    }
}

/// The transform that applies a rotation.
pub open spec fn rotation_transform(r: DisplayRotation) -> WlTransform {
    match r {
        DisplayRotation::Rotate0 => WlTransform::Normal,
        DisplayRotation::Rotate90 => WlTransform::Rotate90,
        DisplayRotation::Rotate180 => WlTransform::Rotate180,
        DisplayRotation::Rotate270 => WlTransform::Rotate270,
    }
}

/// Maps a head transform to a rotation.
pub fn wl_transform_to_rotation(transform: WlTransform) -> (res: DisplayRotation)
    ensures
        res == transform_rotation(transform),
{
    match transform {
        WlTransform::Normal => DisplayRotation::Rotate0,
        WlTransform::Rotate90 => DisplayRotation::Rotate90,
        WlTransform::Rotate180 => DisplayRotation::Rotate180,
        WlTransform::Rotate270 => DisplayRotation::Rotate270,
        _ => DisplayRotation::Rotate0,
    }
}

/// Maps a rotation to the head transform that applies it.
pub fn rotation_to_wl_transform(rotation: DisplayRotation) -> (res: WlTransform)
    ensures
        res == rotation_transform(rotation),
{
    match rotation {
        DisplayRotation::Rotate0 => WlTransform::Normal,
        DisplayRotation::Rotate90 => WlTransform::Rotate90,
        DisplayRotation::Rotate180 => WlTransform::Rotate180,
        DisplayRotation::Rotate270 => WlTransform::Rotate270,
    }
}

/// Sending a rotation and reading the transform back gives the same rotation.
pub proof fn lemma_transform_roundtrip(r: DisplayRotation)
    ensures
        transform_rotation(rotation_transform(r)) == r,
{
}

/// An event the compositor sends about a head.
pub enum HeadEvent {
    /// The head's name.
    Name(String),
    /// The head's position in the global compositor space.
    Position(i32, i32),
    /// The head's scale, in percent.
    Scale(u32),
    /// The head's transform.
    Transform(WlTransform),
    /// A mode object of the head was announced.
    Mode,
    /// Whether the head is enabled (nonzero) or not.
    Enabled(i32),
    /// Any other event, which changes nothing here.
    Other,
}

/// An event the compositor sends about a mode of a head.
pub enum ModeEvent {
    /// The mode's resolution.
    Size(u32, u32),
    /// The mode's refresh rate in millihertz.
    Refresh(u32),
    /// The mode is the preferred one.
    Preferred,
    /// Any other event, which changes nothing here.
    Other,
}

/// One request of an output configuration.
#[derive(Debug, Clone, Copy, PartialEq, Eq, Structural)]
pub enum HeadConfig {
    /// Enable the head at this index with this position, scale and transform.
    Enable { head: usize, x: i32, y: i32, scale_percent: u32, transform: WlTransform },
    /// Disable the head at this index.
    Disable { head: usize },
}

/// Internal state for tracking the heads the compositor announced.
///
/// The three vectors run in parallel: entry `i` of each describes head `i`.
#[derive(Debug)]
pub struct WlrInternalState {
    /// Protocol object id of each head.
    pub heads: Vec<u32>,
    /// The current (and staged) state of each head.
    pub states: Vec<OutputState>,
    /// The modes announced for each head.
    pub modes: Vec<Vec<VideoMode>>,
    /// The serial of the last complete configuration the compositor sent.
    pub serial: u32,
    /// Whether changes should be persisted.
    pub persist: bool,
}

/// The value of a [`WlrInternalState`].
pub struct WlrView {
    pub heads: Seq<u32>,
    pub states: Seq<OutputState>,
    pub modes: Seq<Seq<VideoMode>>,
    pub serial: u32,
    pub persist: bool,
}

impl View for WlrInternalState {
    type V = WlrView;

    open spec fn view(&self) -> WlrView {
        WlrView {
            heads: self.heads@,
            states: self.states@,
            modes: self.modes@.map_values(|m: Vec<VideoMode>| m@),
            serial: self.serial,
            persist: self.persist,
        }
    }
}

/// No two modes of a list share a resolution.
pub open spec fn modes_distinct(m: Seq<VideoMode>) -> bool {
    forall|a: int, b: int| 0 <= a < b < m.len() ==> m[a].resolution != m[b].resolution
}

/// The three per-head vectors have one entry per head, each protocol id
/// names one head, and each head lists a resolution once.
pub open spec fn wlr_wf(t: WlrView) -> bool {
    &&& t.heads.len() == t.states.len()
    &&& t.states.len() == t.modes.len()
    &&& forall|a: int, b: int| 0 <= a < b < t.heads.len() ==> t.heads[a] != t.heads[b]
    &&& forall|h: int| 0 <= h < t.modes.len() ==> modes_distinct(#[trigger] t.modes[h])
}

/// The state of a head after a head event.
pub open spec fn head_event_state(o: OutputState, ev: HeadEvent) -> OutputState {
    match ev {
        HeadEvent::Name(n) => OutputState {
            identity: DisplayIdentity { id: DisplayId(n), monitor_name: n, ..o.identity },
            ..o
        },
        HeadEvent::Position(x, y) => OutputState {
            geometry: Rect { origin: crate::types::Point2D { x, y }, ..o.geometry },
            ..o
        },
        HeadEvent::Scale(s) => OutputState { scale_percent: s, ..o },
        HeadEvent::Transform(t) => OutputState { rotation: transform_rotation(t), ..o },
        HeadEvent::Enabled(e) => OutputState { enabled: e != 0, ..o },
        _ => o,
    }
}

/// The modes of a head after a mode event: a new resolution is appended
/// (with no refresh rate yet), a refresh rate goes to the last mode.
pub open spec fn mode_event_modes(modes: Seq<VideoMode>, ev: ModeEvent) -> Seq<VideoMode> {
    match ev {
        ModeEvent::Size(w, h) => {
            let res = Extent2D { width: w, height: h };
            if exists|i: int| 0 <= i < modes.len() && (#[trigger] modes[i]).resolution == res {
                modes
            } else {
                modes.push(VideoMode { resolution: res, refresh_rate: 0 })
            }
        },
        ModeEvent::Refresh(r) => if modes.len() > 0 {
            modes.update(modes.len() - 1, VideoMode { refresh_rate: r, ..modes.last() })
        } else {
            modes
        },
        _ => modes,
    }
}

/// The effect of staging `e` on the head named `target`.
pub open spec fn wlr_edit(t: WlrView, target: DisplayId, e: OutputEdit) -> (WlrView, DisplayResult<()>) {
    let ids = output_ids(t.states);
    match first_index(ids, target@) {
        None => (t, Err(DisplayError::NotFound(target))),
        Some(k) => {
            let o = t.states[k];
            match e {
                OutputEdit::CloneFrom(source) => match first_index(ids, source@) {
                    None => (t, Err(DisplayError::NotFound(source))),
                    Some(s) => {
                        let src = t.states[s];
                        let dst = OutputState {
                            geometry: src.geometry,
                            refresh_rate: src.refresh_rate,
                            scale_percent: src.scale_percent,
                            rotation: src.rotation,
                            ..o
                        };
                        (WlrView { states: t.states.update(k, dst), ..t }, Ok(()))
                    },
                },
                OutputEdit::Primary => (
                    WlrView {
                        states: Seq::new(
                            t.states.len(),
                            |j: int| OutputState { is_primary: j == k, ..t.states[j] },
                        ),
                        ..t
                    },
                    Ok(()),
                ),
                _ => {
                    let o2 = match e {
                        OutputEdit::Rotation(r) => OutputState { rotation: r, ..o },
                        OutputEdit::Resolution(x) => OutputState {
                            geometry: Rect { size: x, ..o.geometry },
                            ..o
                        },
                        OutputEdit::Position(p) => OutputState {
                            geometry: Rect { origin: p, ..o.geometry },
                            ..o
                        },
                        OutputEdit::RefreshRate(r) => OutputState { refresh_rate: r, ..o },
                        OutputEdit::Hdr(s, m) => OutputState { hdr_state: s, hdr_mode: m, ..o },
                        OutputEdit::Scale(s) => OutputState { scale_percent: s, ..o },
                        OutputEdit::Enabled(b) => OutputState { enabled: b, ..o },
                        _ => o,
                    };
                    (WlrView { states: t.states.update(k, o2), ..t }, Ok(()))
                },
            }
        },
    }
}

/// The configuration request for head `i` in state `o`.
pub open spec fn head_config(i: int, o: OutputState) -> HeadConfig {
    if o.enabled {
        HeadConfig::Enable {
            head: i as usize,
            x: o.geometry.origin.x,
            y: o.geometry.origin.y,
            scale_percent: o.scale_percent,
            transform: rotation_transform(o.rotation),
        }
    } else {
        HeadConfig::Disable { head: i as usize }
    }
}

/// Some head has HDR switched on, which this path cannot configure.
pub open spec fn any_hdr(states: Seq<OutputState>) -> bool {
    exists|i: int| 0 <= i < states.len() && (#[trigger] states[i]).hdr_state == HdrState::Enabled
}

/// The refusal a configuration with HDR gets: HDR needs compositor support
/// that this protocol does not offer.
pub open spec fn wlr_hdr_refusal(e: DisplayError) -> bool {
    e matches DisplayError::UnsupportedFeature(s) && s@ == "HDR is not supported in this simplified WLR path"@
}

impl WlrInternalState {
    /// A state with no heads yet.
    pub fn new() -> (res: Self)
        ensures
            wlr_wf(res@),
            res@.heads.len() == 0,
            res.serial == 0,
            !res.persist,
    {
        WlrInternalState {
            heads: Vec::new(),
            states: Vec::new(),
            modes: Vec::new(),
            serial: 0,
            persist: false,
        }
    }

    /// The index of the head with protocol id `handle`, adding a head in the
    /// default state when it is new.
    pub fn head_index(&mut self, handle: u32) -> (res: usize)
        requires
            wlr_wf(old(self)@),
        ensures
            wlr_wf(final(self)@),
            res < final(self)@.heads.len(),
            final(self)@.heads[res as int] == handle,
            match first_index(old(self)@.heads, handle) {
                Some(k) => res == k && final(self)@ == old(self)@,
                None => {
                    &&& res == old(self)@.heads.len()
                    &&& final(self)@.heads == old(self)@.heads.push(handle)
                    &&& final(self)@.states.drop_last() == old(self)@.states
                    &&& is_default_output(final(self)@.states.last()@)
                    &&& final(self)@.modes == old(self)@.modes.push(Seq::empty())
                    &&& final(self).serial == old(self).serial
                    &&& final(self).persist == old(self).persist
                },
            },
    {
        let n = self.heads.len();
        let mut i: usize = 0;
        while i < n
            invariant
                n == self.heads@.len(),
                i <= n,
                self@ == old(self)@,
                wlr_wf(self@),
                first_index(self.heads@, handle) == first_from(self.heads@, handle, i as int),
            decreases n - i,
        {
            if self.heads[i] == handle {
                return i;
            }
            i = i + 1;
        }
        let ghost old_modes = self.modes@;
        proof {
            lemma_first_index(self.heads@, handle);
        }
        self.heads.push(handle);
        self.states.push(OutputState::default());
        self.modes.push(Vec::new());
        proof {
            assert(self.states@.drop_last() =~= old(self).states@);
            assert(self@.modes =~= old(self)@.modes.push(Seq::empty()));
            assert forall|h: int| 0 <= h < self@.modes.len() implies modes_distinct(#[trigger] self@.modes[h]) by {
                if h < n {
                    assert(self@.modes[h] == old(self)@.modes[h]);
                }
            }
        }
        n
    }

    /// Applies an event about the head with protocol id `handle`, adding the
    /// head first when it is new; returns the head's index (the index a mode
    /// object of the head refers to).
    pub fn apply_head_event(&mut self, handle: u32, event: HeadEvent) -> (res: usize)
        requires
            wlr_wf(old(self)@),
        ensures
            wlr_wf(final(self)@),
            res < final(self)@.heads.len(),
            final(self)@.heads[res as int] == handle,
            final(self).serial == old(self).serial,
            final(self).persist == old(self).persist,
            match first_index(old(self)@.heads, handle) {
                Some(k) => {
                    &&& res == k
                    &&& final(self)@.heads == old(self)@.heads
                    &&& final(self)@.modes == old(self)@.modes
                    &&& final(self)@.states == old(self)@.states.update(
                        k,
                        head_event_state(old(self)@.states[k], event),
                    )
                },
                None => {
                    &&& res == old(self)@.heads.len()
                    &&& final(self)@.heads == old(self)@.heads.push(handle)
                    &&& final(self)@.modes == old(self)@.modes.push(Seq::empty())
                    &&& final(self)@.states.drop_last() == old(self)@.states
                    &&& exists|d: OutputState|
                        is_default_output(d@) && final(self)@.states.last() == head_event_state(d, event)
                },
            },
    {
        let idx = self.head_index(handle);
        let ghost mid = self@;
        let ghost ev = event;
        let out = &mut self.states[idx];
        match event {
            HeadEvent::Name(name) => {
                out.identity.id = DisplayId(name.clone());
                out.identity.monitor_name = name;
            },
            HeadEvent::Position(x, y) => {
                out.geometry.origin.x = x;
                out.geometry.origin.y = y;
            },
            HeadEvent::Scale(s) => {
                out.scale_percent = s;
            },
            HeadEvent::Transform(t) => {
                out.rotation = wl_transform_to_rotation(t);
            },
            HeadEvent::Enabled(e) => {
                out.enabled = e != 0;
            },
            _ => {},
        }
        proof {
            assert(self@.states =~= mid.states.update(idx as int, head_event_state(mid.states[idx as int], ev)));
            if first_index(old(self)@.heads, handle) is None {
                assert(self@.states.drop_last() =~= mid.states.drop_last());
                assert(self@.states.last() == head_event_state(mid.states.last(), ev));
            }
        }
        idx
    }

    /// Applies an event about a mode of head `head_idx`.
    pub fn apply_mode_event(&mut self, head_idx: usize, event: ModeEvent)
        requires
            wlr_wf(old(self)@),
        ensures
            wlr_wf(final(self)@),
            final(self)@.heads == old(self)@.heads,
            final(self)@.states == old(self)@.states,
            final(self).serial == old(self).serial,
            final(self).persist == old(self).persist,
            final(self)@.modes == if head_idx < old(self)@.modes.len() {
                old(self)@.modes.update(
                    head_idx as int,
                    mode_event_modes(old(self)@.modes[head_idx as int], event),
                )
            } else {
                old(self)@.modes
            },
    {
        let ghost ev = event;
        if head_idx < self.modes.len() {
            let ghost before = self.modes@[head_idx as int]@;
            match event {
                ModeEvent::Size(w, h) => {
                    let res = Extent2D { width: w, height: h };
                    let n = self.modes[head_idx].len();
                    let mut found = false;
                    let mut i: usize = 0;
                    while i < n
                        invariant
                            i <= n,
                            n == self.modes@[head_idx as int]@.len(),
                            head_idx < self.modes@.len(),
                            found <==> exists|j: int| 0 <= j < i && (#[trigger] self.modes@[head_idx as int]@[j]).resolution == res,
                        decreases n - i,
                    {
                        if self.modes[head_idx][i].resolution == res {
                            found = true;
                        }
                        i = i + 1;
                    }
                    if !found {
                        self.modes[head_idx].push(VideoMode { resolution: res, refresh_rate: 0 });
                    }
                },
                ModeEvent::Refresh(r) => {
                    let n = self.modes[head_idx].len();
                    if n > 0 {
                        self.modes[head_idx][n - 1].refresh_rate = r;
                    }
                },
                _ => {},
            }
            proof {
                assert(self@.modes =~= old(self)@.modes.update(
                    head_idx as int,
                    mode_event_modes(old(self)@.modes[head_idx as int], ev),
                ));
                let m = mode_event_modes(before, ev);
                assert(modes_distinct(before));
                assert(modes_distinct(m)) by {
                    if let ModeEvent::Size(w, h) = ev {
                        let r = Extent2D { width: w, height: h };
                        if !(exists|i: int| 0 <= i < before.len() && (#[trigger] before[i]).resolution == r) {
                            assert forall|a: int, b: int| 0 <= a < b < m.len() implies m[a].resolution
                                != m[b].resolution by {
                                if b == before.len() {
                                    assert(before[a].resolution != r);
                                }
                            }
                        }
                    }
                }
                assert forall|h: int| 0 <= h < self@.modes.len() implies modes_distinct(#[trigger] self@.modes[h]) by {
                    if h != head_idx {
                        assert(self@.modes[h] == old(self)@.modes[h]);
                    }
                }
            }
        }
    }
}

/// The wlroots topology: the heads as last announced, with staged edits.
#[derive(Debug)]
pub struct WlrTopology {
    /// The heads and the compositor's configuration serial.
    pub state: WlrInternalState,
}

impl WlrTopology {
    /// A topology over the heads gathered from the compositor.
    pub fn from_state(state: WlrInternalState) -> (res: Self)
        ensures
            res.state@ == state@,
    {
        WlrTopology { state }
    }

    /// Returns the state of every head.
    pub fn get_outputs(&self) -> (res: Vec<OutputState>)
        ensures
            res@.len() == self.state@.states.len(),
            forall|j: int| 0 <= j < res@.len() ==> #[trigger] res@[j]@ == self.state@.states[j]@,
    {
        let mut res: Vec<OutputState> = Vec::new();
        let n = self.state.states.len();
        for i in 0..n
            invariant
                n == self.state.states@.len(),
                res@.len() == i,
                forall|j: int| 0 <= j < i ==> #[trigger] res@[j]@ == self.state@.states[j]@,
        {
            res.push(self.state.states[i].clone());
        }
        res
    }

    /// The staged state of the head named `id`, or the default output state
    /// when there is none.
    pub fn get_state(&self, id: &DisplayId) -> (res: OutputState)
        ensures
            match first_index(output_ids(self.state@.states), id@) {
                Some(k) => res@ == self.state@.states[k]@,
                None => is_default_output(res@),
            },
    {
        match find_output(&self.state.states, id) {
            Some(k) => self.state.states[k].clone(),
            None => OutputState::default(),
        }
    }

    /// Checks that an editor can be opened on the head named `id`.
    pub fn edit_output(&self, id: &DisplayId) -> (res: DisplayResult<()>)
        ensures
            res is Ok <==> first_index(output_ids(self.state@.states), id@) is Some,
            res is Err ==> res == Err::<(), DisplayError>(DisplayError::NotFound(*id)),
    {
        match find_output(&self.state.states, id) {
            Some(_) => Ok(()),
            None => Err(DisplayError::NotFound(id.clone())),
        }
    }

    /// Toggles persistence of configuration changes.
    pub fn set_persistence(&mut self, enabled: bool)
        ensures
            final(self).state@ == (WlrView { persist: enabled, ..old(self).state@ }),
    {
        self.state.persist = enabled;
    }

    /// Validates the staged layout: no two enabled heads may overlap. The
    /// compositor checks the rest when it tests the configuration.
    pub fn validate(&self) -> (res: DisplayResult<()>)
        ensures
            res is Ok <==> !has_overlap(self.state@.states),
            res is Err ==> res->Err_0 is ConfigurationRejected,
    {
        check_overlap(self.state.states.as_slice())
    }

    /// Stages `edit` on the head named `target`.
    pub fn apply_edit(&mut self, target: &DisplayId, edit: &OutputEdit) -> (res: DisplayResult<()>)
        ensures
            (final(self).state@, res) == wlr_edit(old(self).state@, *target, *edit),
    {
        match find_output(&self.state.states, target) {
            None => Err(DisplayError::NotFound(target.clone())),
            Some(k) => {
                match edit {
                    OutputEdit::CloneFrom(source) => match find_output(&self.state.states, source) {
                        None => Err(DisplayError::NotFound(source.clone())),
                        Some(s) => {
                            let geometry = self.state.states[s].geometry;
                            let refresh_rate = self.state.states[s].refresh_rate;
                            let scale_percent = self.state.states[s].scale_percent;
                            let rotation = self.state.states[s].rotation;
                            let out = &mut self.state.states[k];
                            out.geometry = geometry;
                            out.refresh_rate = refresh_rate;
                            out.scale_percent = scale_percent;
                            out.rotation = rotation;
                            proof {
                                assert(self.state@.modes =~= old(self).state@.modes);
                            }
                            Ok(())
                        },
                    },
                    OutputEdit::Primary => {
                        let n = self.state.states.len();
                        for i in 0..n
                            invariant
                                n == self.state@.states.len(),
                                n == old(self).state@.states.len(),
                                k < n,
                                self.state@.heads == old(self).state@.heads,
                                self.state@.modes == old(self).state@.modes,
                                self.state.serial == old(self).state.serial,
                                self.state.persist == old(self).state.persist,
                                forall|j: int| 0 <= j < i ==> #[trigger] self.state@.states[j] == (OutputState {
                                    is_primary: j == k,
                                    ..old(self).state@.states[j]
                                }),
                                forall|j: int| i <= j < n ==> #[trigger] self.state@.states[j] == old(self).state@.states[j],
                        {
                            self.state.states[i].is_primary = i == k;
                            proof {
                                assert(self.state@.modes =~= old(self).state@.modes);
                            }
                        }
                        proof {
                            assert(self.state@.states =~= wlr_edit(old(self).state@, *target, *edit).0.states);
                        }
                        Ok(())
                    },
                    _ => {
                        let out = &mut self.state.states[k];
                        match edit {
                            OutputEdit::Rotation(r) => {
                                out.rotation = *r;
                            },
                            OutputEdit::Resolution(x) => {
                                out.geometry.size = *x;
                            },
                            OutputEdit::Position(p) => {
                                out.geometry.origin = *p;
                            },
                            OutputEdit::RefreshRate(r) => {
                                out.refresh_rate = *r;
                            },
                            OutputEdit::Hdr(st, m) => {
                                out.hdr_state = *st;
                                out.hdr_mode = *m;
                            },
                            OutputEdit::Scale(sc) => {
                                out.scale_percent = *sc;
                            },
                            OutputEdit::Enabled(b) => {
                                out.enabled = *b;
                            },
                            _ => {},
                        }
                        proof {
                            assert(self.state@.modes =~= old(self).state@.modes);
                        }
                        Ok(())
                    },
                }
            },
        }
    }

    /// The configuration requests a commit sends, one per head in order; a
    /// head with HDR switched on makes the whole configuration fail, since
    /// this path cannot configure HDR.
    pub fn commit_plan(&self) -> (res: DisplayResult<Vec<HeadConfig>>)
        ensures
            any_hdr(self.state@.states) ==> (res matches Err(e) && wlr_hdr_refusal(e)),
            !any_hdr(self.state@.states) ==> (res matches Ok(plan) && plan@.len() == self.state@.states.len()
                && forall|i: int| 0 <= i < plan@.len() ==> #[trigger] plan@[i] == head_config(i, self.state@.states[i])),
    {
        let mut plan: Vec<HeadConfig> = Vec::new();
        let n = self.state.states.len();
        for i in 0..n
            invariant
                n == self.state@.states.len(),
                plan@.len() == i,
                forall|j: int| 0 <= j < i ==> #[trigger] plan@[j] == head_config(j, self.state@.states[j]),
                forall|j: int| 0 <= j < i ==> (#[trigger] self.state@.states[j]).hdr_state != HdrState::Enabled,
        {
            let o = &self.state.states[i];
            if o.enabled {
                plan.push(HeadConfig::Enable {
                    head: i,
                    x: o.geometry.origin.x,
                    y: o.geometry.origin.y,
                    scale_percent: o.scale_percent,
                    transform: rotation_to_wl_transform(o.rotation),
                });
            } else {
                plan.push(HeadConfig::Disable { head: i });
            }
            if o.hdr_state == HdrState::Enabled {
                return Err(
                    DisplayError::UnsupportedFeature(
                        String::from_str("HDR is not supported in this simplified WLR path"),
                    ),
                );
            }
        }
        Ok(plan)
    }

    /// Wakes every inactive head and returns the identifiers of those to
    /// turn off again later: all but the head named `keep_active`, which
    /// stays enabled after a restore.
    pub fn snapshot_wake_inactive_outputs(&mut self, keep_active: Option<&DisplayId>) -> (res: Vec<
        DisplayId,
    >)
        ensures
            final(self).state@.states == woken_outputs(old(self).state@.states),
            res@.map_values(|d: DisplayId| d@) == woken_ids(old(self).state@.states, keep_view(keep_active)),
            final(self).state@.heads == old(self).state@.heads,
            final(self).state@.modes == old(self).state@.modes,
            final(self).state.serial == old(self).state.serial,
            final(self).state.persist == old(self).state.persist,
    {
        wake_outputs(&mut self.state.states, keep_active)
    }

    /// Disables again the heads named in `inactive_ids`, as recorded by
    /// [`snapshot_wake_inactive_outputs`](Self::snapshot_wake_inactive_outputs).
    pub fn restore_inactive_outputs(&mut self, inactive_ids: &[DisplayId])
        ensures
            final(self).state@.states == restored_outputs(
                old(self).state@.states,
                inactive_ids@.map_values(|d: DisplayId| d@),
            ),
            final(self).state@.heads == old(self).state@.heads,
            final(self).state@.modes == old(self).state@.modes,
            final(self).state.serial == old(self).state.serial,
            final(self).state.persist == old(self).state.persist,
    {
        restore_outputs(&mut self.state.states, inactive_ids)
    }
}

/// A staged edit that succeeds shows in the head's state (read after
/// write), and no other head changes.
pub proof fn lemma_wlr_read_after_write(t: WlrView, target: DisplayId, e: OutputEdit)
    requires
        !(e is CloneFrom),
        !(e is Primary),
        wlr_edit(t, target, e).1 is Ok,
    ensures
        first_index(output_ids(t.states), target@) matches Some(k) && view_reflects(
            wlr_edit(t, target, e).0.states[k]@,
            e,
        ) && forall|j: int|
            0 <= j < t.states.len() && j != k ==> wlr_edit(t, target, e).0.states[j] == t.states[j],
{
    lemma_first_index(output_ids(t.states), target@);
}

/// Setting a head primary makes it the only primary head: the flag is
/// cleared on every other head, and nothing else changes.
pub proof fn lemma_wlr_primary_exclusive(t: WlrView, target: DisplayId)
    requires
        wlr_edit(t, target, OutputEdit::Primary).1 is Ok,
    ensures
        forall|j: int|
            0 <= j < t.states.len() ==> (wlr_edit(t, target, OutputEdit::Primary).0.states[j].is_primary
                <==> first_index(output_ids(t.states), target@) == Some(j)),
        forall|j: int|
            0 <= j < t.states.len() ==> (OutputState {
                is_primary: t.states[j].is_primary,
                ..wlr_edit(t, target, OutputEdit::Primary).0.states[j]
            }) == t.states[j],
{
    lemma_first_index(output_ids(t.states), target@);
}

/// Staging an edit never changes which heads there are, their modes, or the
/// configuration serial.
pub proof fn lemma_wlr_edit_keeps_heads(t: WlrView, target: DisplayId, e: OutputEdit)
    ensures
        output_ids(wlr_edit(t, target, e).0.states) == output_ids(t.states),
        wlr_edit(t, target, e).0.heads == t.heads,
        wlr_edit(t, target, e).0.modes == t.modes,
        wlr_edit(t, target, e).0.serial == t.serial,
{
    lemma_first_index(output_ids(t.states), target@);
    if let OutputEdit::CloneFrom(s) = e {
        lemma_first_index(output_ids(t.states), s@);
    }
    assert(output_ids(wlr_edit(t, target, e).0.states) =~= output_ids(t.states));
}

/// Every enabled head is configured with exactly its staged position,
/// scale and rotation, and every other head is disabled.
pub proof fn lemma_wlr_plan_matches_state(states: Seq<OutputState>, i: int)
    requires
        0 <= i < states.len(),
    ensures
        states[i].enabled ==> head_config(i, states[i]) == (HeadConfig::Enable {
            head: i as usize,
            x: states[i].geometry.origin.x,
            y: states[i].geometry.origin.y,
            scale_percent: states[i].scale_percent,
            transform: rotation_transform(states[i].rotation),
        }),
        !states[i].enabled ==> head_config(i, states[i]) == (HeadConfig::Disable { head: i as usize }),
        states[i].enabled ==> transform_rotation(
            rotation_transform(states[i].rotation),
        ) == states[i].rotation,
{
}

/// A refresh rate goes to the mode announced last: after `Refresh(r)` on a
/// head with modes, the last mode keeps its resolution and refreshes at `r`,
/// and every earlier mode is as it was.
pub proof fn lemma_refresh_to_last_mode(modes: Seq<VideoMode>, r: u32)
    requires
        modes.len() > 0,
    ensures
        mode_event_modes(modes, ModeEvent::Refresh(r)).len() == modes.len(),
        mode_event_modes(modes, ModeEvent::Refresh(r))[modes.len() - 1] == (VideoMode {
            resolution: modes[modes.len() - 1].resolution,
            refresh_rate: r,
        }),
        forall|j: int|
            0 <= j < modes.len() - 1 ==> #[trigger] mode_event_modes(modes, ModeEvent::Refresh(r))[j] == modes[j],
{
}

/// A new resolution followed by its refresh rate adds exactly one mode, that
/// resolution at that rate, after the modes already known; a resolution
/// already known adds nothing, and its rate goes to the last mode.
pub proof fn lemma_size_then_refresh(modes: Seq<VideoMode>, w: u32, h: u32, r: u32)
    ensures
        (forall|i: int| 0 <= i < modes.len() ==> (#[trigger] modes[i]).resolution != (Extent2D { width: w, height: h }))
            ==> mode_event_modes(mode_event_modes(modes, ModeEvent::Size(w, h)), ModeEvent::Refresh(r))
            == modes.push(VideoMode { resolution: Extent2D { width: w, height: h }, refresh_rate: r }),
        (exists|i: int| 0 <= i < modes.len() && (#[trigger] modes[i]).resolution == (Extent2D { width: w, height: h }))
            ==> mode_event_modes(modes, ModeEvent::Size(w, h)) == modes,
{
    let res = Extent2D { width: w, height: h };
    if forall|i: int| 0 <= i < modes.len() ==> (#[trigger] modes[i]).resolution != res {
        let m1 = mode_event_modes(modes, ModeEvent::Size(w, h));
        assert(m1 == modes.push(VideoMode { resolution: res, refresh_rate: 0 }));
        assert(mode_event_modes(m1, ModeEvent::Refresh(r)) =~= modes.push(
            VideoMode { resolution: res, refresh_rate: r },
        ));
    }
}

} // verus!
