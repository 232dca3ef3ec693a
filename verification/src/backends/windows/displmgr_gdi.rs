//! GDI backend: the legacy Windows display configuration path.
//!
//! The outputs and the display records captured when the topology was
//! acquired are kept by device name. Edits change the outputs; a commit
//! stages one record per device, the primary first, and then flushes them
//! all at once.
use vstd::prelude::*;

use self::displmgr_gdi_sys::GdiDevMode;
use crate::backends::overlap::{check_overlap, has_overlap};
use crate::backends::wake::{find_output, output_ids};
use crate::traits::{first_from, first_index, lemma_first_index};
use crate::types::{is_default_output, DisplayId, OutputState};

/// Win32 GDI system type helpers and flag constants.
pub mod displmgr_gdi_sys;

/// Staging edits on a GDI topology.
pub mod displmgr_gdi_editor;

/// Reading GDI devices and planning GDI mode changes.
pub mod displmgr_gdi_api;

verus! {

/// Windows GDI display topology: the outputs by device name, the display
/// records captured at acquisition, and the staged primary.
#[derive(Debug)]
pub struct GdiTopology {
    /// The outputs, one per device name.
    pub outputs: Vec<OutputState>,
    /// When `true`, changes are written to the registry.
    pub persistence_enabled: bool,
    /// The display records captured at acquisition, one per device name.
    pub saved_modes: Vec<(String, GdiDevMode)>,
    /// The device staged to become the primary display.
    pub target_primary_id: Option<String>,
}

/// The value of a [`GdiTopology`].
pub struct GdiView {
    pub outputs: Seq<OutputState>,
    pub persist: bool,
    pub saved: Seq<(Seq<char>, GdiDevMode)>,
    pub primary: Option<Seq<char>>,
}

/// The device names and records of a list of captured records.
pub open spec fn saved_view(s: Seq<(String, GdiDevMode)>) -> Seq<(Seq<char>, GdiDevMode)> {
    s.map_values(|e: (String, GdiDevMode)| (e.0@, e.1))
}

impl View for GdiTopology {
    type V = GdiView;

    open spec fn view(&self) -> GdiView {
        GdiView {
            outputs: self.outputs@,
            persist: self.persistence_enabled,
            saved: saved_view(self.saved_modes@),
            primary: match self.target_primary_id {
                Some(s) => Some(s@),
                None => None,
            },
        }
    }
}

/// `s` with output `o` stored under its name: the output of that name is
/// replaced, or `o` is appended when there is none.
pub open spec fn insert_output(s: Seq<OutputState>, o: OutputState) -> Seq<OutputState> {
    match first_index(output_ids(s), o.identity.id@) {
        Some(k) => s.update(k, o),
        None => s.push(o),
    }
}

/// The outputs of `list` stored one by one under their names.
pub open spec fn collect_outputs(list: Seq<OutputState>) -> Seq<OutputState>
    decreases list.len(),
{
    if list.len() == 0 {
        Seq::empty()
    } else {
        insert_output(collect_outputs(list.drop_last()), list.last())
    }
}

/// The device names of captured records, in order.
pub open spec fn mode_names(s: Seq<(Seq<char>, GdiDevMode)>) -> Seq<Seq<char>> {
    s.map_values(|e: (Seq<char>, GdiDevMode)| e.0)
}

/// `s` with record `m` stored under `name`.
pub open spec fn insert_mode(s: Seq<(Seq<char>, GdiDevMode)>, name: Seq<char>, m: GdiDevMode) -> Seq<
    (Seq<char>, GdiDevMode),
> {
    match first_index(mode_names(s), name) {
        Some(k) => s.update(k, (name, m)),
        None => s.push((name, m)),
    }
}

/// The records of `list` stored one by one under their names.
pub open spec fn collect_modes(list: Seq<(Seq<char>, GdiDevMode)>) -> Seq<(Seq<char>, GdiDevMode)>
    decreases list.len(),
{
    if list.len() == 0 {
        Seq::empty()
    } else {
        insert_mode(collect_modes(list.drop_last()), list.last().0, list.last().1)
    }
}

/// The record captured for `name`.
pub open spec fn mode_lookup(s: Seq<(Seq<char>, GdiDevMode)>, name: Seq<char>) -> Option<GdiDevMode> {
    match first_index(mode_names(s), name) {
        Some(k) => Some(s[k].1),
        None => None,
    }
}

/// No two entries share a name.
pub open spec fn names_unique(ids: Seq<Seq<char>>) -> bool {
    forall|a: int, b: int| 0 <= a < b < ids.len() ==> ids[a] != ids[b]
}

/// The outputs and the captured records are each kept under distinct
/// device names, one entry per name.
pub open spec fn gdi_wf(t: GdiView) -> bool {
    &&& names_unique(output_ids(t.outputs))
    &&& names_unique(mode_names(t.saved))
}

/// Storing under a name keeps names unique.
proof fn lemma_insert_output_unique(s: Seq<OutputState>, o: OutputState)
    requires
        names_unique(output_ids(s)),
    ensures
        names_unique(output_ids(insert_output(s, o))),
        output_ids(insert_output(s, o)).contains(o.identity.id@),
{
    lemma_first_index(output_ids(s), o.identity.id@);
    let r = insert_output(s, o);
    match first_index(output_ids(s), o.identity.id@) {
        Some(k) => {
            assert(output_ids(r) =~= output_ids(s));
            assert(output_ids(r)[k] == o.identity.id@);
        },
        None => {
            assert(output_ids(r) =~= output_ids(s).push(o.identity.id@));
            assert(output_ids(r)[s.len() as int] == o.identity.id@);
        },
    }
}

/// Collected outputs carry each name once.
pub proof fn lemma_collect_outputs_unique(list: Seq<OutputState>)
    ensures
        names_unique(output_ids(collect_outputs(list))),
    decreases list.len(),
{
    if list.len() > 0 {
        lemma_collect_outputs_unique(list.drop_last());
        lemma_insert_output_unique(collect_outputs(list.drop_last()), list.last());
    } else {
        assert(output_ids(collect_outputs(list)) =~= Seq::<Seq<char>>::empty());
    }
}

proof fn lemma_insert_mode_unique(s: Seq<(Seq<char>, GdiDevMode)>, name: Seq<char>, m: GdiDevMode)
    requires
        names_unique(mode_names(s)),
    ensures
        names_unique(mode_names(insert_mode(s, name, m))),
{
    lemma_first_index(mode_names(s), name);
    let r = insert_mode(s, name, m);
    match first_index(mode_names(s), name) {
        Some(k) => {
            assert(mode_names(r) =~= mode_names(s));
        },
        None => {
            assert(mode_names(r) =~= mode_names(s).push(name));
        },
    }
}

proof fn lemma_collect_modes_unique(list: Seq<(Seq<char>, GdiDevMode)>)
    ensures
        names_unique(mode_names(collect_modes(list))),
    decreases list.len(),
{
    if list.len() > 0 {
        lemma_collect_modes_unique(list.drop_last());
        lemma_insert_mode_unique(collect_modes(list.drop_last()), list.last().0, list.last().1);
    } else {
        assert(mode_names(collect_modes(list)) =~= Seq::<Seq<char>>::empty());
    }
}

fn insert_output_exec(s: &mut Vec<OutputState>, o: OutputState)
    ensures
        final(s)@ == insert_output(old(s)@, o),
{
    match find_output(s, &o.identity.id) {
        Some(k) => {
            s.set(k, o);
        },
        None => {
            s.push(o);
        },
    }
}

fn insert_mode_exec(s: &mut Vec<(String, GdiDevMode)>, name: String, m: GdiDevMode)
    ensures
        saved_view(final(s)@) == insert_mode(saved_view(old(s)@), name@, m),
{
    let n = s.len();
    let ghost names = mode_names(saved_view(old(s)@));
    let mut i: usize = 0;
    while i < n
        invariant
            n == s@.len(),
            s@ == old(s)@,
            names == mode_names(saved_view(old(s)@)),
            i <= n,
            first_index(names, name@) == first_from(names, name@, i as int),
        decreases n - i,
    {
        if s[i].0 == name {
            s.set(i, (name, m));
            proof {
                assert(saved_view(s@) =~= insert_mode(saved_view(old(s)@), name@, m));
            }
            return;
        }
        i = i + 1;
    }
    s.push((name, m));
    proof {
        assert(saved_view(s@) =~= insert_mode(saved_view(old(s)@), name@, m));
    }
}

impl GdiTopology {
    /// A topology over the devices a query found: each output and record is
    /// stored under its device name, a later one replacing an earlier one of
    /// the same name. Changes persist and no primary is staged.
    pub fn from_query(modes: Vec<(String, GdiDevMode)>, outputs: Vec<OutputState>) -> (res: Self)
        ensures
            res@.outputs == collect_outputs(outputs@),
            res@.saved == collect_modes(saved_view(modes@)),
            res@.persist,
            res@.primary is None,
            gdi_wf(res@),
    {
        let mut collected: Vec<OutputState> = Vec::new();
        let mut outputs = outputs;
        let ghost orig = outputs@;
        let n = outputs.len();
        let mut i: usize = 0;
        while i < n
            invariant
                n == orig.len(),
                i <= n,
                outputs@ == orig.subrange(i as int, n as int),
                collected@ == collect_outputs(orig.subrange(0, i as int)),
            decreases n - i,
        {
            let o = outputs.remove(0);
            proof {
                assert(orig.subrange(0, i + 1).drop_last() =~= orig.subrange(0, i as int));
            }
            insert_output_exec(&mut collected, o);
            i = i + 1;
        }
        proof {
            assert(orig.subrange(0, n as int) =~= orig);
        }
        let mut saved: Vec<(String, GdiDevMode)> = Vec::new();
        let mut modes = modes;
        let ghost morig = saved_view(modes@);
        let m = modes.len();
        let mut j: usize = 0;
        while j < m
            invariant
                m == morig.len(),
                j <= m,
                saved_view(modes@) == morig.subrange(j as int, m as int),
                saved_view(saved@) == collect_modes(morig.subrange(0, j as int)),
            decreases m - j,
        {
            let ghost before = modes@;
            assert(modes@.len() == saved_view(modes@).len());
            let (name, dm) = modes.remove(0);
            proof {
                assert(saved_view(modes@) =~= saved_view(before).drop_first());
                assert(morig.subrange(0, j + 1).drop_last() =~= morig.subrange(0, j as int));
                assert(morig[j as int] == saved_view(before)[0]);
            }
            insert_mode_exec(&mut saved, name, dm);
            j = j + 1;
        }
        proof {
            assert(morig.subrange(0, m as int) =~= morig);
            lemma_collect_outputs_unique(orig);
            lemma_collect_modes_unique(morig);
        }
        GdiTopology {
            outputs: collected,
            persistence_enabled: true,
            saved_modes: saved,
            target_primary_id: None,
        }
    }

    /// Returns every output.
    pub fn get_outputs(&self) -> (res: Vec<OutputState>)
        ensures
            res@.len() == self@.outputs.len(),
            forall|j: int| 0 <= j < res@.len() ==> #[trigger] res@[j]@ == self@.outputs[j]@,
    {
        let mut res: Vec<OutputState> = Vec::new();
        let n = self.outputs.len();
        for i in 0..n
            invariant
                n == self@.outputs.len(),
                res@.len() == i,
                forall|j: int| 0 <= j < i ==> #[trigger] res@[j]@ == self@.outputs[j]@,
        {
            res.push(self.outputs[i].clone());
        }
        res
    }

    /// The output named `id`, or the default output state when there is none.
    pub fn get_state(&self, id: &DisplayId) -> (res: OutputState)
        ensures
            match first_index(output_ids(self@.outputs), id@) {
                Some(k) => res@ == self@.outputs[k]@,
                None => is_default_output(res@),
            },
    {
        match find_output(&self.outputs, id) {
            Some(k) => self.outputs[k].clone(),
            None => OutputState::default(),
        }
    }

    /// Toggles writing changes to the registry.
    pub fn set_persistence(&mut self, enabled: bool)
        ensures
            final(self)@ == (GdiView { persist: enabled, ..old(self)@ }),
            gdi_wf(old(self)@) ==> gdi_wf(final(self)@),
    {
        self.persistence_enabled = enabled;
    }

    /// Validates the staged layout: no two enabled outputs may overlap.
    pub fn validate(&self) -> (res: crate::error::DisplayResult<()>)
        ensures
            res is Ok <==> !has_overlap(self@.outputs),
            res is Err ==> res->Err_0 is ConfigurationRejected,
    {
        check_overlap(self.outputs.as_slice())
    }
}

/// Captured display records that a temporary change is undone with: for
/// each device its wide name, whether it was active, and its record.
#[derive(Debug)]
pub struct DisplayRestorer {
    /// `(wide name, was active, record)` for each device.
    pub snapshot: Vec<(Vec<u16>, bool, GdiDevMode)>,
}

impl DisplayRestorer {
    /// The record to stage on each device, in order, with the registry
    /// staging flags; the caller then flushes them all at once.
    pub fn restore_changes(&self) -> (res: Vec<(Vec<u16>, GdiDevMode, u32)>)
        ensures
            res@.len() == self.snapshot@.len(),
            forall|i: int|
                0 <= i < res@.len() ==> {
                    &&& (#[trigger] res@[i]).0@ == self.snapshot@[i].0@
                    &&& res@[i].1 == displmgr_gdi_api::restore_mode(self.snapshot@[i].1, self.snapshot@[i].2)
                    &&& res@[i].2 == (displmgr_gdi_sys::gdi_flags::CDS_UPDATEREGISTRY
                        | displmgr_gdi_sys::gdi_flags::CDS_NORESET)
                },
    {
        let mut res: Vec<(Vec<u16>, GdiDevMode, u32)> = Vec::new();
        let n = self.snapshot.len();
        for i in 0..n
            invariant
                n == self.snapshot@.len(),
                res@.len() == i,
                forall|j: int|
                    0 <= j < i ==> {
                        &&& (#[trigger] res@[j]).0@ == self.snapshot@[j].0@
                        &&& res@[j].1 == displmgr_gdi_api::restore_mode(self.snapshot@[j].1, self.snapshot@[j].2)
                        &&& res@[j].2 == (displmgr_gdi_sys::gdi_flags::CDS_UPDATEREGISTRY
                            | displmgr_gdi_sys::gdi_flags::CDS_NORESET)
                    },
        {
            let (name, was_active, old_dm) = (&self.snapshot[i].0, self.snapshot[i].1, self.snapshot[i].2);
            let mode = if was_active {
                old_dm
            } else {
                GdiDevMode {
                    pels_width: 0,
                    pels_height: 0,
                    fields: displmgr_gdi_sys::DM_PELSWIDTH | displmgr_gdi_sys::DM_PELSHEIGHT
                        | displmgr_gdi_sys::DM_POSITION,
                    ..old_dm
                }
            };
            let mut wide: Vec<u16> = Vec::new();
            let m = name.len();
            for j in 0..m
                invariant
                    m == name@.len(),
                    wide@ == name@.subrange(0, j as int),
            {
                wide.push(name[j]);
            }
            proof {
                assert(wide@ =~= name@);
            }
            res.push(
                (
                    wide,
                    mode,
                    displmgr_gdi_sys::gdi_flags::CDS_UPDATEREGISTRY
                        | displmgr_gdi_sys::gdi_flags::CDS_NORESET,
                ),
            );
        }
        res
    }
}

/// When a query reports a device name more than once, the output kept for
/// it is the last one reported: every output that no later one shares a
/// name with is among the collected outputs.
pub proof fn lemma_collect_outputs_last_wins(list: Seq<OutputState>)
    ensures
        forall|j: int|
            0 <= j < list.len() && (forall|k: int| j < k < list.len() ==> list[k].identity.id@ != (
            #[trigger] list[j]).identity.id@) ==> collect_outputs(list).contains(list[j]),
    decreases list.len(),
{
    if list.len() > 0 {
        let init = list.drop_last();
        lemma_collect_outputs_last_wins(init);
        let c = collect_outputs(init);
        let x = list.last();
        let r = insert_output(c, x);
        assert(collect_outputs(list) == r);
        lemma_first_index(output_ids(c), x.identity.id@);
        assert forall|j: int|
            0 <= j < list.len() && (forall|k: int| j < k < list.len() ==> list[k].identity.id@ != (
            #[trigger] list[j]).identity.id@) implies r.contains(list[j]) by {
            if j == list.len() - 1 {
                match first_index(output_ids(c), x.identity.id@) {
                    Some(k) => assert(r[k] == x),
                    None => assert(r[c.len() as int] == x),
                }
            } else {
                assert(init[j] == list[j]);
                assert(list[list.len() - 1] == x);
                assert(forall|k: int| j < k < init.len() ==> init[k] == list[k]);
                assert(c.contains(init[j]));
                let w = choose|w: int| 0 <= w < c.len() && c[w] == init[j];
                assert(output_ids(c)[w] == list[j].identity.id@);
                match first_index(output_ids(c), x.identity.id@) {
                    Some(k) => {
                        assert(output_ids(c)[k] == x.identity.id@);
                        assert(w != k);
                        assert(r[w] == list[j]);
                    },
                    None => assert(r[w] == list[j]),
                }
            }
        }
    }
}

} // verus!
