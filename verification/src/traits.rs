//! The staging vocabulary shared by every backend: the edits an output
//! editor can stage, and how an output is looked up by its identifier.
use vstd::prelude::*;

use crate::types::{DisplayId, DisplayRotation, Extent2D, HdrMode, HdrState, OutputStateView, Point2D};

verus! {

/// One staged modification of a single output, as offered by an output editor.
///
/// Every backend applies these to its in-memory model; nothing reaches the
/// hardware until the topology is committed.
#[derive(Debug, PartialEq, Eq)]
pub enum OutputEdit {
    /// Sets the hardware rotation of the display.
    Rotation(DisplayRotation),
    /// Sets the active resolution in pixels.
    Resolution(Extent2D),
    /// Positions the display within the virtual coordinate space.
    Position(Point2D),
    /// Sets the refresh rate in millihertz.
    RefreshRate(u32),
    /// Designates the output as the primary monitor.
    Primary,
    /// Configures HDR state and color-volume profile.
    Hdr(HdrState, HdrMode),
    /// Sets the desktop scaling factor, in percent.
    Scale(u32),
    /// Enables or disables the signal output.
    Enabled(bool),
    /// Copies the configuration of another output of the same topology.
    CloneFrom(DisplayId),
}

/// The reported state `v` shows the value that the field edit `e` staged.
pub open spec fn view_reflects(v: OutputStateView, e: OutputEdit) -> bool {
    match e {
        OutputEdit::Rotation(r) => v.rotation == r,
        OutputEdit::Resolution(x) => v.geometry.size == x,
        OutputEdit::Position(p) => v.geometry.origin == p,
        OutputEdit::RefreshRate(r) => v.refresh_rate == r,
        OutputEdit::Primary => v.is_primary,
        OutputEdit::Hdr(s, m) => v.hdr_state == s && v.hdr_mode == m,
        OutputEdit::Scale(s) => v.scale_percent == s,
        OutputEdit::Enabled(b) => v.enabled == b,
        OutputEdit::CloneFrom(_) => true,
    }
}

/// The first position at or after `start` whose identifier is `id`.
pub open spec fn first_from<A>(ids: Seq<A>, id: A, start: int) -> Option<int>
    decreases ids.len() - start,
{
    if start < 0 || start >= ids.len() {
        None
    } else if ids[start] == id {
        Some(start)
    } else {
        first_from(ids, id, start + 1)
    }
}

/// The first position whose identifier is `id`, which is the output that a
/// lookup by identifier finds.
pub open spec fn first_index<A>(ids: Seq<A>, id: A) -> Option<int> {
    first_from(ids, id, 0)
}

/// What [`first_from`] finds is the earliest match, and when it finds nothing
/// there is no match at all.
pub proof fn lemma_first_from<A>(ids: Seq<A>, id: A, start: int)
    requires
        0 <= start,
    ensures
        first_from(ids, id, start) matches Some(k) ==> start <= k < ids.len() && ids[k] == id
            && forall|j: int| start <= j < k ==> ids[j] != id,
        first_from(ids, id, start) is None ==> forall|j: int| start <= j < ids.len() ==> ids[j] != id,
    decreases ids.len() - start,
{
    if start < ids.len() && ids[start] != id {
        lemma_first_from(ids, id, start + 1);
    }
}

/// The first match of `id` exists exactly when some identifier equals `id`.
pub proof fn lemma_first_index<A>(ids: Seq<A>, id: A)
    ensures
        first_index(ids, id) matches Some(k) ==> 0 <= k < ids.len() && ids[k] == id
            && forall|j: int| 0 <= j < k ==> ids[j] != id,
        first_index(ids, id) is None <==> forall|j: int| 0 <= j < ids.len() ==> ids[j] != id,
{
    lemma_first_from(ids, id, 0);
}

/// When identifiers are unique, the first match is the only match.
pub proof fn lemma_first_index_unique<A>(ids: Seq<A>, id: A, k: int)
    requires
        0 <= k < ids.len(),
        ids[k] == id,
        forall|a: int, b: int| 0 <= a < b < ids.len() ==> ids[a] != ids[b],
    ensures
        first_index(ids, id) == Some(k),
{
    lemma_first_index(ids, id);
}

/// Appending an element only matters to a lookup that found nothing before.
pub proof fn lemma_first_index_push<A>(ids: Seq<A>, x: A, id: A)
    ensures
        first_index(ids.push(x), id) == (match first_index(ids, id) {
            Some(k) => Some(k),
            None => if x == id {
                Some(ids.len() as int)
            } else {
                None
            },
        }),
{
    lemma_first_index(ids, id);
    lemma_first_index(ids.push(x), id);
    if let Some(k) = first_index(ids, id) {
        assert(ids.push(x)[k] == id);
    } else if x == id {
        assert(ids.push(x)[ids.len() as int] == id);
    } else {
        assert forall|j: int| 0 <= j < ids.push(x).len() implies ids.push(x)[j] != id by {
            if j < ids.len() {
                assert(ids.push(x)[j] == ids[j]);
            }
        }
    }
}

} // verus!
