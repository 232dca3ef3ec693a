//! Shared geometric overlap detection for display topologies.
use vstd::prelude::*;

use crate::error::{DisplayError, DisplayResult};
use crate::types::{OutputState, Rect};

verus! {

/// Trait for types that can be validated for geometric overlap.
///
/// Implemented by backend state types so that [`check_overlap`] works without
/// converting them to [`OutputState`](crate::types::OutputState) first.
pub trait OverlapCheckable {
    /// Whether the output takes part in the desktop.
    spec fn enabled_spec(&self) -> bool;

    /// The rectangle the output occupies.
    spec fn geometry_spec(&self) -> Rect;

    /// Returns `true` if the output is currently enabled.
    fn is_enabled(&self) -> (res: bool)
        ensures
            res == self.enabled_spec(),
    ;

    /// Returns the geometric boundary of the output.
    fn geometry(&self) -> (res: Rect)
        ensures
            res == self.geometry_spec(),
    ;
}

/// Right edge (exclusive) of a rectangle in desktop coordinates.
pub open spec fn right_edge(r: Rect) -> int {
    r.origin.x + r.size.width
}

/// Bottom edge (exclusive) of a rectangle in desktop coordinates.
pub open spec fn bottom_edge(r: Rect) -> int {
    r.origin.y + r.size.height
}

/// Two rectangles share a region of positive area.
pub open spec fn rects_overlap(a: Rect, b: Rect) -> bool {
    &&& a.origin.x < right_edge(b)
    &&& right_edge(a) > b.origin.x
    &&& a.origin.y < bottom_edge(b)
    &&& bottom_edge(a) > b.origin.y
}

/// Two distinct enabled entries of `outputs` overlap.
pub open spec fn has_overlap<T: OverlapCheckable>(outputs: Seq<T>) -> bool {
    exists|i: int, j: int|
        #![trigger outputs[i], outputs[j]]
        0 <= i < j < outputs.len() && outputs[i].enabled_spec() && outputs[j].enabled_spec()
            && rects_overlap(outputs[i].geometry_spec(), outputs[j].geometry_spec())
}

fn overlap_exec(a: Rect, b: Rect) -> (res: bool)
    ensures
        res == rects_overlap(a, b),
{
    let a_x2 = a.origin.x as i64 + a.size.width as i64;
    let a_y2 = a.origin.y as i64 + a.size.height as i64;
    let b_x2 = b.origin.x as i64 + b.size.width as i64;
    let b_y2 = b.origin.y as i64 + b.size.height as i64;
    let overlap_x = (a.origin.x as i64) < b_x2 && a_x2 > b.origin.x as i64;
    let overlap_y = (a.origin.y as i64) < b_y2 && a_y2 > b.origin.y as i64;
    overlap_x && overlap_y
}

/// Performs a pairwise geometric overlap check across all outputs.
///
/// Returns `Ok(())` if no two enabled outputs overlap, and
/// `Err(DisplayError::ConfigurationRejected)` otherwise. Edges are computed
/// exactly, so a right or bottom edge past the range of `i32` is never folded
/// back into the coordinate space.
pub fn check_overlap<T: OverlapCheckable>(outputs: &[T]) -> (res: DisplayResult<()>)
    ensures
        res is Ok <==> !has_overlap(outputs@),
        res is Err ==> res->Err_0 is ConfigurationRejected,
{
    let n = outputs.len();
    for i in 0..n
        invariant
            n == outputs@.len(),
            forall|p: int, q: int|
                #![trigger outputs@[p], outputs@[q]]
                0 <= p < i && p < q < n && outputs@[p].enabled_spec() && outputs@[q].enabled_spec()
                    ==> !rects_overlap(outputs@[p].geometry_spec(), outputs@[q].geometry_spec()),
    {
        let a_enabled = outputs[i].is_enabled();
        let a = outputs[i].geometry();
        for j in i + 1..n
            invariant
                n == outputs@.len(),
                i < n,
                a_enabled == outputs@[i as int].enabled_spec(),
                a == outputs@[i as int].geometry_spec(),
                forall|p: int, q: int|
                    #![trigger outputs@[p], outputs@[q]]
                    0 <= p < i && p < q < n && outputs@[p].enabled_spec()
                        && outputs@[q].enabled_spec() ==> !rects_overlap(
                        outputs@[p].geometry_spec(),
                        outputs@[q].geometry_spec(),
                    ),
                forall|q: int|
                    #![trigger outputs@[q]]
                    i < q < j && a_enabled && outputs@[q].enabled_spec() ==> !rects_overlap(
                        a,
                        outputs@[q].geometry_spec(),
                    ),
        {
            if a_enabled && outputs[j].is_enabled() {
                let b = outputs[j].geometry();
                if overlap_exec(a, b) {
                    assert(has_overlap(outputs@)) by {
                        assert(outputs@[i as int].enabled_spec() && outputs@[j as int].enabled_spec());
                    }
                    return Err(DisplayError::ConfigurationRejected);
                }
            }
        }
    }
    proof {
        assert forall|p: int, q: int|
            0 <= p < q < outputs@.len() && outputs@[p].enabled_spec() && outputs@[q].enabled_spec()
            implies !rects_overlap(outputs@[p].geometry_spec(), outputs@[q].geometry_spec()) by {
            assert(p < n);
        }
    }
    Ok(())
}

/// Overlap is a symmetric relation: the order in which two outputs are listed
/// does not change whether they collide.
pub proof fn lemma_overlap_symmetric(a: Rect, b: Rect)
    ensures
        rects_overlap(a, b) == rects_overlap(b, a),
{
}

/// An output never overlaps one placed directly to its right, i.e. whose left
/// edge is at or past its right edge.
pub proof fn lemma_side_by_side_no_overlap(a: Rect, b: Rect)
    requires
        b.origin.x >= right_edge(a),
    ensures
        !rects_overlap(a, b),
{
}

/// Some enabled entry of `s` overlaps `x`, itself enabled.
pub open spec fn overlaps_any<T: OverlapCheckable>(s: Seq<T>, x: T) -> bool {
    x.enabled_spec() && exists|i: int|
        0 <= i < s.len() && (#[trigger] s[i]).enabled_spec() && rects_overlap(s[i].geometry_spec(), x.geometry_spec())
}

proof fn lemma_overlap_push<T: OverlapCheckable>(s: Seq<T>, x: T)
    ensures
        has_overlap(s.push(x)) == (has_overlap(s) || overlaps_any(s, x)),
{
    let t = s.push(x);
    if has_overlap(t) {
        let (i, j) = choose|i: int, j: int|
            #![trigger t[i], t[j]]
            0 <= i < j < t.len() && t[i].enabled_spec() && t[j].enabled_spec()
                && rects_overlap(t[i].geometry_spec(), t[j].geometry_spec());
        if j < s.len() {
            assert(t[i] == s[i] && t[j] == s[j]);
        } else {
            assert(t[i] == s[i] && t[j] == x);
        }
    }
    if has_overlap(s) {
        let (i, j) = choose|i: int, j: int|
            #![trigger s[i], s[j]]
            0 <= i < j < s.len() && s[i].enabled_spec() && s[j].enabled_spec()
                && rects_overlap(s[i].geometry_spec(), s[j].geometry_spec());
        assert(t[i] == s[i] && t[j] == s[j]);
    }
    if overlaps_any(s, x) {
        let i = choose|i: int|
            0 <= i < s.len() && (#[trigger] s[i]).enabled_spec() && rects_overlap(s[i].geometry_spec(), x.geometry_spec());
        assert(t[i] == s[i] && t[s.len() as int] == x);
    }
}

/// The enabled entries of `s`, in order.
pub open spec fn enabled_only<T: OverlapCheckable>(s: Seq<T>) -> Seq<T> {
    s.filter(|o: T| o.enabled_spec())
}

/// Disabled outputs never change the overlap outcome: it is the same on the
/// enabled outputs alone, and so there is no overlap when at most one output
/// is enabled.
pub proof fn lemma_overlap_ignores_disabled<T: OverlapCheckable>(outputs: Seq<T>)
    ensures
        has_overlap(outputs) == has_overlap(enabled_only(outputs)),
        enabled_only(outputs).len() <= 1 ==> !has_overlap(outputs),
    decreases outputs.len(),
{
    broadcast use vstd::seq_lib::group_filter_ensures;

    let pred = |o: T| o.enabled_spec();
    if outputs.len() == 0 {
        reveal(Seq::filter);
        assert(enabled_only(outputs) =~= outputs);
    } else {
        let s = outputs.drop_last();
        let x = outputs.last();
        assert(outputs =~= s.push(x));
        lemma_overlap_ignores_disabled(s);
        s.lemma_filter_push(x, pred);
        lemma_overlap_push(s, x);
        let f = enabled_only(s);
        if x.enabled_spec() {
            lemma_overlap_push(f, x);
            if overlaps_any(s, x) {
                let i = choose|i: int|
                    0 <= i < s.len() && (#[trigger] s[i]).enabled_spec() && rects_overlap(s[i].geometry_spec(), x.geometry_spec());
                assert(pred(s[i]));
                assert(f.contains(s[i]));
                let k = choose|k: int| 0 <= k < f.len() && f[k] == s[i];
                assert(overlaps_any(f, x));
            }
            if overlaps_any(f, x) {
                let k = choose|k: int|
                    0 <= k < f.len() && (#[trigger] f[k]).enabled_spec() && rects_overlap(f[k].geometry_spec(), x.geometry_spec());
                assert(f.contains(f[k]));
                s.lemma_filter_contains_rev(pred, f[k]);
                let i = choose|i: int| 0 <= i < s.len() && s[i] == f[k];
                assert(overlaps_any(s, x));
            }
        }
        let g = enabled_only(outputs);
        if g.len() <= 1 && has_overlap(g) {
            let (i, j) = choose|i: int, j: int|
                #![trigger g[i], g[j]]
                0 <= i < j < g.len() && g[i].enabled_spec() && g[j].enabled_spec()
                    && rects_overlap(g[i].geometry_spec(), g[j].geometry_spec());
        }
    }
}

/// `perm` lists, for each entry of `b`, the entry of `a` it is: a one-to-one
/// and onto correspondence between the positions of two sequences.
pub open spec fn is_permutation<T>(a: Seq<T>, b: Seq<T>, perm: Seq<int>) -> bool {
    &&& a.len() == b.len()
    &&& perm.len() == b.len()
    &&& forall|i: int| 0 <= i < b.len() ==> 0 <= #[trigger] perm[i] < a.len() && b[i] == a[perm[i]]
    &&& forall|i: int, j: int| 0 <= i < j < b.len() ==> #[trigger] perm[i] != #[trigger] perm[j]
    &&& forall|k: int|
        #![trigger a[k]]
        0 <= k < a.len() ==> exists|i: int| #![trigger perm[i]] 0 <= i < b.len() && perm[i] == k
}

proof fn lemma_overlap_perm_one_way<T: OverlapCheckable>(a: Seq<T>, b: Seq<T>, perm: Seq<int>)
    requires
        is_permutation(a, b, perm),
        has_overlap(b),
    ensures
        has_overlap(a),
{
    let (i, j) = choose|i: int, j: int|
        #![trigger b[i], b[j]]
        0 <= i < j < b.len() && b[i].enabled_spec() && b[j].enabled_spec()
            && rects_overlap(b[i].geometry_spec(), b[j].geometry_spec());
    let p = perm[i];
    let q = perm[j];
    assert(p != q);
    if p < q {
        assert(a[p] == b[i] && a[q] == b[j]);
    } else {
        assert(a[q] == b[j] && a[p] == b[i]);
        assert(rects_overlap(a[q].geometry_spec(), a[p].geometry_spec()));
    }
}

/// The overlap outcome does not depend on the order of the outputs: a
/// sequence and any rearrangement of it overlap alike.
pub proof fn lemma_overlap_order_free<T: OverlapCheckable>(a: Seq<T>, b: Seq<T>, perm: Seq<int>)
    requires
        is_permutation(a, b, perm),
    ensures
        has_overlap(a) == has_overlap(b),
{
    if has_overlap(b) {
        lemma_overlap_perm_one_way(a, b, perm);
    }
    if has_overlap(a) {
        let (p, q) = choose|p: int, q: int|
            #![trigger a[p], a[q]]
            0 <= p < q < a.len() && a[p].enabled_spec() && a[q].enabled_spec()
                && rects_overlap(a[p].geometry_spec(), a[q].geometry_spec());
        let i = choose|i: int| #![trigger perm[i]] 0 <= i < b.len() && perm[i] == p;
        let j = choose|j: int| #![trigger perm[j]] 0 <= j < b.len() && perm[j] == q;
        assert(b[i] == a[p] && b[j] == a[q]);
        if i < j {
            assert(perm[i] != perm[j]);
        } else {
            assert(i != j);
            assert(perm[j] != perm[i]);
            assert(rects_overlap(b[j].geometry_spec(), b[i].geometry_spec()));
        }
    }
}

impl OverlapCheckable for OutputState {
    open spec fn enabled_spec(&self) -> bool {
        self.enabled
    }

    open spec fn geometry_spec(&self) -> Rect {
        self.geometry
    }

    fn is_enabled(&self) -> (res: bool) {
        self.enabled
    }

    fn geometry(&self) -> (res: Rect) {
        self.geometry
    }
}

impl OverlapCheckable for (bool, Rect) {
    open spec fn enabled_spec(&self) -> bool {
        self.0
    }

    open spec fn geometry_spec(&self) -> Rect {
        self.1
    }

    fn is_enabled(&self) -> (res: bool) {
        self.0
    }

    fn geometry(&self) -> (res: Rect) {
        self.1
    }
}

} // verus!
