//! Activating an inactive monitor while keeping the existing layout: what
//! is saved of the layout beforehand, which edits put it back after every
//! display was forced on, and where the target monitor goes.
//!
//! The sequence itself (acquiring topologies, forcing displays on, waiting
//! for the hardware, committing) is carried out by the platform layer, which
//! asks this module at each step what to do.
use vstd::prelude::*;
use vstd::string::{StrSliceExecFns, StringExecFns};

use crate::backends::windows::displmgr_gdi::displmgr_gdi_api::{as_i32, i32_of};
use crate::error::{error_message, DisplayError};
use crate::text::{decimal, u32_to_decimal};
use crate::traits::{first_from, first_index, OutputEdit};
use crate::types::{ActivationPlan, DisplayId, Extent2D, OutputState, Point2D};

verus! {

/// What is saved of an output before every display is forced on.
#[derive(Debug)]
pub struct SavedOutput {
    /// The monitor name, without surrounding whitespace.
    pub name: String,
    /// Whether the output was enabled.
    pub enabled: bool,
    /// Left edge.
    pub x: i32,
    /// Top edge.
    pub y: i32,
    /// Width in pixels.
    pub width: u32,
    /// Height in pixels.
    pub height: u32,
}

/// The value of a [`SavedOutput`].
pub struct SavedView {
    pub name: Seq<char>,
    pub enabled: bool,
    pub x: i32,
    pub y: i32,
    pub width: u32,
    pub height: u32,
}

impl View for SavedOutput {
    type V = SavedView;

    open spec fn view(&self) -> SavedView {
        SavedView {
            name: self.name@,
            enabled: self.enabled,
            x: self.x,
            y: self.y,
            width: self.width,
            height: self.height,
        }
    }
}

/// A character with the Unicode `White_Space` property, which is what
/// `char::is_whitespace` tests.
pub open spec fn is_whitespace(c: char) -> bool {
    ||| '\u{9}' <= c <= '\u{d}'
    ||| c == ' '
    ||| c == '\u{85}'
    ||| c == '\u{a0}'
    ||| c == '\u{1680}'
    ||| '\u{2000}' <= c <= '\u{200a}'
    ||| c == '\u{2028}'
    ||| c == '\u{2029}'
    ||| c == '\u{202f}'
    ||| c == '\u{205f}'
    ||| c == '\u{3000}'
}

fn is_whitespace_exec(c: char) -> (res: bool)
    ensures
        res == is_whitespace(c),
{
    ('\u{9}' <= c && c <= '\u{d}') || c == ' ' || c == '\u{85}' || c == '\u{a0}' || c == '\u{1680}'
        || ('\u{2000}' <= c && c <= '\u{200a}') || c == '\u{2028}' || c == '\u{2029}' || c
        == '\u{202f}' || c == '\u{205f}' || c == '\u{3000}'
}

/// `s` without its leading and trailing whitespace, as `str::trim` gives it:
/// the part from the first to the last character that is not whitespace.
#[verifier::opaque]
pub open spec fn trimmed(s: Seq<char>) -> Seq<char> {
    if forall|i: int| 0 <= i < s.len() ==> is_whitespace(#[trigger] s[i]) {
        Seq::empty()
    } else {
        let a = choose|a: int|
            0 <= a < s.len() && !is_whitespace(#[trigger] s[a]) && forall|i: int|
                0 <= i < a ==> is_whitespace(#[trigger] s[i]);
        let b = choose|b: int|
            0 <= b < s.len() && !is_whitespace(#[trigger] s[b]) && forall|i: int|
                b < i < s.len() ==> is_whitespace(#[trigger] s[i]);
        s.subrange(a, b + 1)
    }
}

/// Removes leading and trailing whitespace, as `str::trim` does.
pub fn trim(s: &str) -> (res: String)
    ensures
        res@ == trimmed(s@),
{
    let n = s.unicode_len();
    let mut a: usize = 0;
    while a < n && is_whitespace_exec(s.get_char(a))
        invariant
            n == s@.len(),
            a <= n,
            forall|i: int| 0 <= i < a ==> is_whitespace(#[trigger] s@[i]),
        decreases n - a,
    {
        a = a + 1;
    }
    if a == n {
        proof {
            reveal(trimmed);
        }
        return String::new();
    }
    let mut b: usize = n - 1;
    while is_whitespace_exec(s.get_char(b))
        invariant
            n == s@.len(),
            a < n,
            a <= b < n,
            !is_whitespace(s@[a as int]),
            forall|i: int| b < i < n ==> is_whitespace(#[trigger] s@[i]),
        decreases b,
    {
        b = b - 1;
    }
    proof {
        reveal(trimmed);
        let a0 = choose|x: int|
            0 <= x < s@.len() && !is_whitespace(#[trigger] s@[x]) && forall|i: int|
                0 <= i < x ==> is_whitespace(#[trigger] s@[i]);
        let b0 = choose|x: int|
            0 <= x < s@.len() && !is_whitespace(#[trigger] s@[x]) && forall|i: int|
                x < i < s@.len() ==> is_whitespace(#[trigger] s@[i]);
        assert(!is_whitespace(s@[a as int]));
        assert(!is_whitespace(s@[b as int]));
        if a0 < a {
            assert(is_whitespace(s@[a0]));
        }
        if a < a0 {
            assert(is_whitespace(s@[a as int]));
        }
        if b0 > b {
            assert(is_whitespace(s@[b0]));
        }
        if b0 < b {
            assert(is_whitespace(s@[b as int]));
        }
    }
    s.substring_char(a, b + 1).to_string()
}

/// The value saved of an output.
pub open spec fn saved_of(o: OutputState) -> SavedView {
    SavedView {
        name: trimmed(o.identity.monitor_name@),
        enabled: o.enabled,
        x: o.geometry.origin.x,
        y: o.geometry.origin.y,
        width: o.geometry.size.width,
        height: o.geometry.size.height,
    }
}

/// Saves an output.
pub fn save_output(o: &OutputState) -> (res: SavedOutput)
    ensures
        res@ == saved_of(*o),
{
    SavedOutput {
        name: trim(o.identity.monitor_name.as_str()),
        enabled: o.enabled,
        x: o.geometry.origin.x,
        y: o.geometry.origin.y,
        width: o.geometry.size.width,
        height: o.geometry.size.height,
    }
}

/// A saved layout by value: output identifier and what was saved of it.
pub open spec fn layout_view(s: Seq<(String, SavedOutput)>) -> Seq<(Seq<char>, SavedView)> {
    s.map_values(|e: (String, SavedOutput)| (e.0@, e.1@))
}

/// The identifiers of a saved layout, in order.
pub open spec fn layout_ids(s: Seq<(Seq<char>, SavedView)>) -> Seq<Seq<char>> {
    s.map_values(|e: (Seq<char>, SavedView)| e.0)
}

/// What the layout holds for the output named `id`.
pub open spec fn layout_lookup(s: Seq<(Seq<char>, SavedView)>, id: Seq<char>) -> Option<SavedView> {
    match first_index(layout_ids(s), id) {
        Some(k) => Some(s[k].1),
        None => None,
    }
}

/// `s` with `v` stored under `id`, replacing what was stored there.
pub open spec fn layout_insert(s: Seq<(Seq<char>, SavedView)>, id: Seq<char>, v: SavedView) -> Seq<
    (Seq<char>, SavedView),
> {
    match first_index(layout_ids(s), id) {
        Some(k) => s.update(k, (id, v)),
        None => s.push((id, v)),
    }
}

/// The layout saved from `outputs`: each stored under its identifier, a
/// later output replacing an earlier one of the same identifier.
pub open spec fn saved_layout(outputs: Seq<OutputState>) -> Seq<(Seq<char>, SavedView)>
    decreases outputs.len(),
{
    if outputs.len() == 0 {
        Seq::empty()
    } else {
        layout_insert(
            saved_layout(outputs.drop_last()),
            outputs.last().identity.id@,
            saved_of(outputs.last()),
        )
    }
}

fn layout_find(s: &Vec<(String, SavedOutput)>, id: &String) -> (res: Option<usize>)
    ensures
        match res {
            Some(k) => first_index(layout_ids(layout_view(s@)), id@) == Some(k as int) && k < s@.len(),
            None => first_index(layout_ids(layout_view(s@)), id@) is None,
        },
{
    let n = s.len();
    let ghost ids = layout_ids(layout_view(s@));
    let mut i: usize = 0;
    while i < n
        invariant
            n == s@.len(),
            ids == layout_ids(layout_view(s@)),
            i <= n,
            first_index(ids, id@) == first_from(ids, id@, i as int),
        decreases n - i,
    {
        if s[i].0 == *id {
            return Some(i);
        }
        i = i + 1;
    }
    None
}

fn layout_insert_exec(s: &mut Vec<(String, SavedOutput)>, id: String, saved: SavedOutput)
    ensures
        layout_view(final(s)@) == layout_insert(layout_view(old(s)@), id@, saved@),
{
    match layout_find(s, &id) {
        Some(k) => {
            s.set(k, (id, saved));
        },
        None => {
            s.push((id, saved));
        },
    }
    proof {
        assert(layout_view(s@) =~= layout_insert(layout_view(old(s)@), id@, saved@));
    }
}

/// Saves the layout: what each output is, by identifier.
pub fn save_topology(outputs: &[OutputState]) -> (res: Vec<(String, SavedOutput)>)
    ensures
        layout_view(res@) == saved_layout(outputs@),
{
    let mut res: Vec<(String, SavedOutput)> = Vec::new();
    let n = outputs.len();
    for i in 0..n
        invariant
            n == outputs@.len(),
            layout_view(res@) == saved_layout(outputs@.subrange(0, i as int)),
    {
        let o = &outputs[i];
        proof {
            assert(outputs@.subrange(0, i + 1).drop_last() =~= outputs@.subrange(0, i as int));
            assert(outputs@.subrange(0, i + 1).last() == outputs@[i as int]);
        }
        let saved = save_output(o);
        let id = o.identity.id.0.clone();
        layout_insert_exec(&mut res, id, saved);
    }
    proof {
        assert(outputs@.subrange(0, n as int) =~= outputs@);
    }
    res
}

/// Whether the target was enabled when the layout was saved.
pub open spec fn was_active_spec(layout: Seq<(Seq<char>, SavedView)>, target_id: u32) -> bool {
    match layout_lookup(layout, decimal(target_id as nat)) {
        Some(s) => s.enabled,
        None => false,
    }
}

/// Whether target `target_id` was enabled in the saved layout.
pub fn was_active(saved: &Vec<(String, SavedOutput)>, target_id: u32) -> (res: bool)
    ensures
        res == was_active_spec(layout_view(saved@), target_id),
{
    let key = u32_to_decimal(target_id);
    match layout_find(saved, &key) {
        Some(k) => saved[k].1.enabled,
        None => false,
    }
}

/// The edits that put the output named `id` back as the layout had it: an
/// output that was enabled is switched on at its saved place and size; one
/// that was disabled, or that was not there and is not the target, is
/// switched off; the target itself is left alone.
pub open spec fn restore_edits(layout: Seq<(Seq<char>, SavedView)>, id: Seq<char>, target_id: u32) -> Seq<
    OutputEdit,
> {
    match layout_lookup(layout, id) {
        Some(s) => if s.enabled {
            seq![
                OutputEdit::Enabled(true),
                OutputEdit::Position(Point2D { x: s.x, y: s.y }),
                OutputEdit::Resolution(Extent2D { width: s.width, height: s.height }),
            ]
        } else {
            seq![OutputEdit::Enabled(false)]
        },
        None => if id == decimal(target_id as nat) {
            Seq::empty()
        } else {
            seq![OutputEdit::Enabled(false)]
        },
    }
}

/// For each current output, in order, the edits that restore the saved
/// layout around target `target_id`. The caller stages them on the outputs
/// that an editor opens for, ignoring failed edits, then commits.
pub fn restore_plan(saved: &Vec<(String, SavedOutput)>, outputs: &[OutputState], target_id: u32) -> (res: Vec<
    (DisplayId, Vec<OutputEdit>),
>)
    ensures
        res@.len() == outputs@.len(),
        forall|i: int|
            0 <= i < res@.len() ==> (#[trigger] res@[i]).0@ == outputs@[i].identity.id@ && res@[i].1@
                == restore_edits(layout_view(saved@), outputs@[i].identity.id@, target_id),
{
    let key = u32_to_decimal(target_id);
    let mut res: Vec<(DisplayId, Vec<OutputEdit>)> = Vec::new();
    let n = outputs.len();
    for i in 0..n
        invariant
            n == outputs@.len(),
            key@ == decimal(target_id as nat),
            res@.len() == i,
            forall|j: int|
                0 <= j < i ==> (#[trigger] res@[j]).0@ == outputs@[j].identity.id@ && res@[j].1@
                    == restore_edits(layout_view(saved@), outputs@[j].identity.id@, target_id),
    {
        let id = &outputs[i].identity.id;
        let mut edits: Vec<OutputEdit> = Vec::new();
        match layout_find(saved, &id.0) {
            Some(k) => {
                let s = &saved[k].1;
                if s.enabled {
                    edits.push(OutputEdit::Enabled(true));
                    edits.push(OutputEdit::Position(Point2D { x: s.x, y: s.y }));
                    edits.push(OutputEdit::Resolution(Extent2D { width: s.width, height: s.height }));
                } else {
                    edits.push(OutputEdit::Enabled(false));
                }
            },
            None => {
                if id.0 != key {
                    edits.push(OutputEdit::Enabled(false));
                }
            },
        }
        proof {
            assert(edits@ =~= restore_edits(layout_view(saved@), id@, target_id));
        }
        res.push((id.clone(), edits));
    }
    res
}

/// The furthest right edge, computed in 32 bits, among the enabled outputs;
/// `None` when none is enabled.
pub open spec fn enabled_right_edge(outputs: Seq<OutputState>) -> Option<int>
    decreases outputs.len(),
{
    if outputs.len() == 0 {
        None
    } else {
        let rest = enabled_right_edge(outputs.drop_last());
        let o = outputs.last();
        if o.enabled {
            let e = o.geometry.origin.x + i32_of(o.geometry.size.width);
            match rest {
                Some(r) => if e > r { Some(e) } else { Some(r) },
                None => Some(e),
            }
        } else {
            rest
        }
    }
}

/// Where the target goes: the planned position, or right of the enabled
/// outputs on the top edge (at the origin when none is enabled).
pub open spec fn placement_spec(plan: ActivationPlan, outputs: Seq<OutputState>) -> Point2D {
    match plan.position {
        Some(p) => p,
        None => Point2D {
            x: match enabled_right_edge(outputs) {
                Some(e) => e as i32,
                None => 0,
            },
            y: 0,
        },
    }
}

/// The right edges of the enabled outputs fit in 32 bits.
pub open spec fn enabled_edges_fit(outputs: Seq<OutputState>) -> bool {
    forall|j: int|
        0 <= j < outputs.len() && (#[trigger] outputs[j]).enabled ==> i32::MIN <= outputs[j].geometry.origin.x
            + i32_of(outputs[j].geometry.size.width) <= i32::MAX
}

/// Chooses where the target goes.
pub fn placement_position(plan: &ActivationPlan, outputs: &[OutputState]) -> (res: Point2D)
    requires
        plan.position is None ==> enabled_edges_fit(outputs@),
    ensures
        res == placement_spec(*plan, outputs@),
        plan.position is None ==> match enabled_right_edge(outputs@) {
            Some(e) => res.x as int == e,
            None => res.x == 0,
        },
{
    match plan.position {
        Some(p) => p,
        None => {
            let n = outputs.len();
            let mut best: Option<i32> = None;
            for i in 0..n
                invariant
                    n == outputs@.len(),
                    enabled_edges_fit(outputs@),
                    match enabled_right_edge(outputs@.subrange(0, i as int)) {
                        Some(e) => best matches Some(b) && b as int == e,
                        None => best is None,
                    },
            {
                proof {
                    assert(outputs@.subrange(0, i + 1).drop_last() =~= outputs@.subrange(0, i as int));
                    assert(outputs@.subrange(0, i + 1).last() == outputs@[i as int]);
                }
                let o = &outputs[i];
                if o.enabled {
                    let e = o.geometry.origin.x + as_i32(o.geometry.size.width);
                    best = match best {
                        Some(b) => if e > b { Some(e) } else { Some(b) },
                        None => Some(e),
                    };
                }
            }
            proof {
                assert(outputs@.subrange(0, n as int) =~= outputs@);
            }
            let x = match best {
                Some(b) => b,
                None => 0,
            };
            Point2D { x, y: 0 }
        },
    }
}

/// The edits that place the target: switched on, at `pos`, then the planned
/// resolution and rotation when there are any.
pub open spec fn placement_edits_spec(plan: ActivationPlan, pos: Point2D) -> Seq<OutputEdit> {
    seq![OutputEdit::Enabled(true), OutputEdit::Position(pos)] + match plan.resolution {
        Some(r) => seq![OutputEdit::Resolution(r)],
        None => Seq::empty(),
    } + match plan.rotation {
        Some(r) => seq![OutputEdit::Rotation(r)],
        None => Seq::empty(),
    }
}

/// Lists the edits that place the target at `pos`. The caller stages them
/// in order and stops at the first that fails, reporting it with
/// [`placement_failure`].
pub fn placement_edits(plan: &ActivationPlan, pos: Point2D) -> (res: Vec<OutputEdit>)
    ensures
        res@ == placement_edits_spec(*plan, pos),
{
    let mut res: Vec<OutputEdit> = Vec::new();
    res.push(OutputEdit::Enabled(true));
    res.push(OutputEdit::Position(pos));
    if let Some(r) = plan.resolution {
        res.push(OutputEdit::Resolution(r));
    }
    if let Some(r) = plan.rotation {
        res.push(OutputEdit::Rotation(r));
    }
    proof {
        assert(res@ =~= placement_edits_spec(*plan, pos));
    }
    res
}

/// The name of the editor operation an edit is made with.
pub open spec fn edit_operation(e: OutputEdit) -> Seq<char> {
    match e {
        OutputEdit::Enabled(_) => "set_enabled"@,
        OutputEdit::Position(_) => "set_position"@,
        OutputEdit::Resolution(_) => "set_resolution"@,
        OutputEdit::Rotation(_) => "set_rotation"@,
        OutputEdit::RefreshRate(_) => "set_refresh_rate"@,
        OutputEdit::Primary => "set_primary"@,
        OutputEdit::Hdr(_, _) => "set_hdr"@,
        OutputEdit::Scale(_) => "set_scale"@,
        OutputEdit::CloneFrom(_) => "clone_from"@,
    }
}

fn edit_operation_exec(e: &OutputEdit) -> (res: &'static str)
    ensures
        res@ == edit_operation(*e),
{
    match e {
        OutputEdit::Enabled(_) => "set_enabled",
        OutputEdit::Position(_) => "set_position",
        OutputEdit::Resolution(_) => "set_resolution",
        OutputEdit::Rotation(_) => "set_rotation",
        OutputEdit::RefreshRate(_) => "set_refresh_rate",
        OutputEdit::Primary => "set_primary",
        OutputEdit::Hdr(_, _) => "set_hdr",
        OutputEdit::Scale(_) => "set_scale",
        OutputEdit::CloneFrom(_) => "clone_from",
    }
}

/// `prefix` followed by the message of `e`, when the message is known.
pub open spec fn wrapped(m: Seq<char>, prefix: Seq<char>, e: DisplayError) -> bool {
    error_message(&e) is Some ==> m == prefix + error_message(&e)->0
}

fn wrap(prefix: String, e: &DisplayError) -> (res: DisplayError)
    ensures
        res matches DisplayError::BackendError(m) && wrapped(m@, prefix@, *e),
{
    let m = prefix.concat(e.to_string().as_str());
    DisplayError::BackendError(m)
}

/// The error placing the target ends with when staging `edit` on `id` fails
/// with `e`: the operation, the output and the cause.
pub fn placement_failure(edit: &OutputEdit, id: &DisplayId, e: &DisplayError) -> (res: DisplayError)
    ensures
        res matches DisplayError::BackendError(m) && wrapped(
            m@,
            edit_operation(*edit) + " for '"@ + id@ + "' failed: "@,
            *e,
        ),
{
    let prefix = String::from_str(edit_operation_exec(edit)).concat(" for '").concat(id.0.as_str()).concat(
        "' failed: ",
    );
    wrap(prefix, e)
}

/// The error placing the target ends with when no editor opens on `id`.
pub fn open_failure(id: &DisplayId, e: &DisplayError) -> (res: DisplayError)
    ensures
        res matches DisplayError::BackendError(m) && wrapped(m@, "edit_output '"@ + id@ + "' failed: "@, *e),
{
    let prefix = String::from_str("edit_output '").concat(id.0.as_str()).concat("' failed: ");
    wrap(prefix, e)
}

/// The error restoring the layout ends with when its commit fails.
pub fn restore_commit_failure(e: &DisplayError) -> (res: DisplayError)
    ensures
        res matches DisplayError::BackendError(m) && wrapped(m@, "topology restore commit failed: "@, *e),
{
    wrap(String::from_str("topology restore commit failed: "), e)
}

/// The error placing the target ends with when its commit fails.
pub fn final_commit_failure(e: &DisplayError) -> (res: DisplayError)
    ensures
        res matches DisplayError::BackendError(m) && wrapped(m@, "final commit failed: "@, *e),
{
    wrap(String::from_str("final commit failed: "), e)
}

/// The error activation ends with when forcing every display on fails with
/// message `msg`.
pub fn force_all_failure(msg: String) -> (res: DisplayError)
    ensures
        res matches DisplayError::BackendError(m) && m@ == "force_all failed: "@ + msg@,
{
    DisplayError::BackendError(String::from_str("force_all failed: ").concat(msg.as_str()))
}

/// Storing under `id` makes a lookup of `id` find what was stored, and
/// leaves the lookup of every other identifier as it was.
pub proof fn lemma_layout_insert_lookup(s: Seq<(Seq<char>, SavedView)>, id: Seq<char>, v: SavedView, x: Seq<char>)
    ensures
        layout_lookup(layout_insert(s, id, v), x) == if x == id {
            Some(v)
        } else {
            layout_lookup(s, x)
        },
{
    let r = layout_insert(s, id, v);
    crate::traits::lemma_first_index(layout_ids(s), id);
    crate::traits::lemma_first_index(layout_ids(s), x);
    match first_index(layout_ids(s), id) {
        Some(k) => {
            assert(layout_ids(r) =~= layout_ids(s));
            assert(r[k].1 == v);
            if let Some(k2) = first_index(layout_ids(s), x) {
                if x != id {
                    assert(layout_ids(s)[k2] != layout_ids(s)[k]);
                    assert(r[k2] == s[k2]);
                }
            }
        },
        None => {
            assert(layout_ids(r) =~= layout_ids(s).push(id));
            crate::traits::lemma_first_index_push(layout_ids(s), id, x);
            assert(r[s.len() as int].1 == v);
            if let Some(k2) = first_index(layout_ids(s), x) {
                assert(r[k2] == s[k2]);
            }
        },
    }
}

/// The saved layout holds nothing for an identifier no output has.
pub proof fn lemma_saved_layout_absent(outputs: Seq<OutputState>, x: Seq<char>)
    requires
        forall|j: int| 0 <= j < outputs.len() ==> (#[trigger] outputs[j]).identity.id@ != x,
    ensures
        layout_lookup(saved_layout(outputs), x) is None,
    decreases outputs.len(),
{
    if outputs.len() == 0 {
        assert(layout_ids(saved_layout(outputs)) =~= Seq::<Seq<char>>::empty());
        crate::traits::lemma_first_index(layout_ids(saved_layout(outputs)), x);
    } else {
        let p = outputs.drop_last();
        assert forall|j: int| 0 <= j < p.len() implies (#[trigger] p[j]).identity.id@ != x by {
            assert(p[j] == outputs[j]);
        }
        lemma_saved_layout_absent(p, x);
        assert(outputs[outputs.len() - 1] == outputs.last());
        lemma_layout_insert_lookup(saved_layout(p), outputs.last().identity.id@, saved_of(outputs.last()), x);
    }
}

/// The saved layout gives back, for an output that no later output shares
/// its identifier with, what was saved of that output (a read gives back
/// what the save wrote).
pub proof fn lemma_saved_layout_present(outputs: Seq<OutputState>, j: int)
    requires
        0 <= j < outputs.len(),
        forall|i: int| j < i < outputs.len() ==> (#[trigger] outputs[i]).identity.id@ != outputs[j].identity.id@,
    ensures
        layout_lookup(saved_layout(outputs), outputs[j].identity.id@) == Some(saved_of(outputs[j])),
    decreases outputs.len(),
{
    let p = outputs.drop_last();
    let o = outputs.last();
    let x = outputs[j].identity.id@;
    assert(outputs[outputs.len() - 1] == o);
    if j < outputs.len() - 1 {
        assert(p[j] == outputs[j]);
        assert forall|i: int| j < i < p.len() implies (#[trigger] p[i]).identity.id@ != p[j].identity.id@ by {
            assert(p[i] == outputs[i]);
        }
        lemma_saved_layout_present(p, j);
    }
    lemma_layout_insert_lookup(saved_layout(p), o.identity.id@, saved_of(o), x);
}

/// The right edge of an output, computed in 32 bits as placement computes
/// it.
pub open spec fn output_right(o: OutputState) -> int {
    o.geometry.origin.x + i32_of(o.geometry.size.width)
}

/// The furthest right edge of the enabled outputs is at or past the right
/// edge of each of them and is the right edge of one of them.
proof fn lemma_enabled_right_edge_max(outputs: Seq<OutputState>)
    ensures
        match enabled_right_edge(outputs) {
            Some(e) => {
                &&& forall|j: int|
                    0 <= j < outputs.len() && (#[trigger] outputs[j]).enabled ==> output_right(outputs[j]) <= e
                &&& exists|j: int|
                    0 <= j < outputs.len() && (#[trigger] outputs[j]).enabled && output_right(outputs[j]) == e
            },
            None => forall|j: int| 0 <= j < outputs.len() ==> !(#[trigger] outputs[j]).enabled,
        },
    decreases outputs.len(),
{
    if outputs.len() > 0 {
        let init = outputs.drop_last();
        lemma_enabled_right_edge_max(init);
        let last = outputs.len() - 1;
        assert forall|j: int| 0 <= j < last implies outputs[j] == #[trigger] init[j] by {}
        match enabled_right_edge(outputs) {
            Some(e) => {
                assert forall|j: int| 0 <= j < outputs.len() && (#[trigger] outputs[j]).enabled implies output_right(
                    outputs[j],
                ) <= e by {
                    if j < last {
                        assert(init[j] == outputs[j]);
                    }
                }
                if outputs[last].enabled && output_right(outputs[last]) == e {
                } else {
                    let k = choose|k: int|
                        0 <= k < init.len() && (#[trigger] init[k]).enabled && output_right(init[k]) == e;
                    assert(outputs[k] == init[k]);
                }
            },
            None => {
                assert forall|j: int| 0 <= j < outputs.len() implies !(#[trigger] outputs[j]).enabled by {
                    if j < last {
                        assert(init[j] == outputs[j]);
                    }
                }
            },
        }
    }
}

/// With no planned position, the target goes on the top edge, at the
/// furthest right edge of the enabled outputs: at or right of every enabled
/// output and flush with one of them, whatever order they are listed in; at
/// the origin when no output is enabled.
pub proof fn lemma_placement_right_of_all(plan: ActivationPlan, outputs: Seq<OutputState>)
    requires
        plan.position is None,
        enabled_edges_fit(outputs),
    ensures
        placement_spec(plan, outputs).y == 0,
        forall|j: int|
            0 <= j < outputs.len() && (#[trigger] outputs[j]).enabled ==> output_right(outputs[j])
                <= placement_spec(plan, outputs).x,
        (exists|j: int|
            0 <= j < outputs.len() && (#[trigger] outputs[j]).enabled && output_right(outputs[j])
                == placement_spec(plan, outputs).x) || ((forall|j: int|
            0 <= j < outputs.len() ==> !(#[trigger] outputs[j]).enabled) && placement_spec(plan, outputs).x == 0),
{
    lemma_enabled_right_edge_max(outputs);
    if let Some(e) = enabled_right_edge(outputs) {
        let k = choose|k: int| 0 <= k < outputs.len() && (#[trigger] outputs[k]).enabled && output_right(outputs[k]) == e;
        assert(i32::MIN <= e <= i32::MAX);
    }
}

} // verus!
