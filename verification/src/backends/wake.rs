//! Waking every inactive output and restoring the previous state afterwards:
//! the bookkeeping that the backends share.
use vstd::prelude::*;

use crate::traits::{first_from, first_index, lemma_first_index, lemma_first_index_unique};
use crate::types::{DisplayId, OutputState};

verus! {

/// The identifiers of the outputs, in order.
pub open spec fn output_ids(outputs: Seq<OutputState>) -> Seq<Seq<char>> {
    outputs.map_values(|o: OutputState| o.identity.id@)
}

/// The outputs after waking: every output is enabled, the kept one too.
pub open spec fn woken_outputs(outputs: Seq<OutputState>) -> Seq<OutputState> {
    Seq::new(outputs.len(), |j: int| OutputState { enabled: true, ..outputs[j] })
}

/// The outputs with the one named `keep`, if any, switched on.
pub open spec fn with_kept_on(outputs: Seq<OutputState>, keep: Option<Seq<char>>) -> Seq<OutputState> {
    Seq::new(
        outputs.len(),
        |j: int|
            if keep == Some(outputs[j].identity.id@) {
                OutputState { enabled: true, ..outputs[j] }
            } else {
                outputs[j]
            },
    )
}

/// The identifiers of the outputs that waking enables and a restore turns
/// off again: the disabled ones other than `keep`, in order.
pub open spec fn woken_ids(outputs: Seq<OutputState>, keep: Option<Seq<char>>) -> Seq<Seq<char>>
    decreases outputs.len(),
{
    if outputs.len() == 0 {
        Seq::empty()
    } else {
        let rest = woken_ids(outputs.drop_last(), keep);
        let o = outputs.last();
        if !o.enabled && keep != Some(o.identity.id@) {
            rest.push(o.identity.id@)
        } else {
            rest
        }
    }
}

/// Output `j` is the first output named by some entry of `ids`, and so is
/// disabled by a restore.
pub open spec fn restored_off(outputs: Seq<OutputState>, ids: Seq<Seq<char>>, j: int) -> bool {
    exists|i: int| 0 <= i < ids.len() && first_index(output_ids(outputs), #[trigger] ids[i]) == Some(j)
}

/// The outputs after a restore: the first output named by each entry of
/// `ids` is disabled again.
pub open spec fn restored_outputs(outputs: Seq<OutputState>, ids: Seq<Seq<char>>) -> Seq<OutputState> {
    Seq::new(
        outputs.len(),
        |j: int|
            if restored_off(outputs, ids, j) {
                OutputState { enabled: false, ..outputs[j] }
            } else {
                outputs[j]
            },
    )
}

/// Identifiers of distinct outputs differ.
pub open spec fn unique_ids(outputs: Seq<OutputState>) -> bool {
    forall|a: int, b: int|
        0 <= a < b < outputs.len() ==> outputs[a].identity.id@ != outputs[b].identity.id@
}

/// An identifier is among those waking enables exactly when it names a
/// disabled output other than the one kept.
pub proof fn lemma_woken_ids_members(outputs: Seq<OutputState>, keep: Option<Seq<char>>, x: Seq<char>)
    ensures
        woken_ids(outputs, keep).contains(x) <==> exists|j: int|
            0 <= j < outputs.len() && (#[trigger] outputs[j]).identity.id@ == x && !outputs[j].enabled
                && keep != Some(x),
    decreases outputs.len(),
{
    if outputs.len() > 0 {
        let init = outputs.drop_last();
        lemma_woken_ids_members(init, keep, x);
        let rest = woken_ids(init, keep);
        let o = outputs.last();
        if !o.enabled && keep != Some(o.identity.id@) {
            assert(woken_ids(outputs, keep) == rest.push(o.identity.id@));
            if rest.push(o.identity.id@).contains(x) && !rest.contains(x) {
                assert(outputs[outputs.len() - 1] == o);
            }
            if exists|j: int| 0 <= j < outputs.len() && (#[trigger] outputs[j]).identity.id@ == x
                && !outputs[j].enabled && keep != Some(x) {
                let j = choose|j: int| 0 <= j < outputs.len() && (#[trigger] outputs[j]).identity.id@ == x
                    && !outputs[j].enabled && keep != Some(x);
                if j < outputs.len() - 1 {
                    assert(init[j] == outputs[j]);
                    assert(rest.contains(x));
                    assert(rest.push(o.identity.id@).contains(x)) by {
                        let w = choose|w: int| 0 <= w < rest.len() && rest[w] == x;
                        assert(rest.push(o.identity.id@)[w] == x);
                    }
                } else {
                    assert(rest.push(o.identity.id@)[rest.len() as int] == x);
                }
            }
        } else {
            if exists|j: int| 0 <= j < outputs.len() && (#[trigger] outputs[j]).identity.id@ == x
                && !outputs[j].enabled && keep != Some(x) {
                let j = choose|j: int| 0 <= j < outputs.len() && (#[trigger] outputs[j]).identity.id@ == x
                    && !outputs[j].enabled && keep != Some(x);
                if j == outputs.len() - 1 {
                    assert(outputs[j] == o);
                } else {
                    assert(init[j] == outputs[j]);
                }
            }
            if rest.contains(x) {
                let j = choose|j: int| 0 <= j < init.len() && (#[trigger] init[j]).identity.id@ == x
                    && !init[j].enabled && keep != Some(x);
                assert(outputs[j] == init[j]);
            }
        }
    }
}

/// Waking then restoring with the identifiers the wake reported puts every
/// output back as it was, when identifiers are unique, except that the one
/// kept active stays on.
pub proof fn lemma_wake_restore(outputs: Seq<OutputState>, keep: Option<Seq<char>>)
    requires
        unique_ids(outputs),
    ensures
        restored_outputs(woken_outputs(outputs), woken_ids(outputs, keep)) == with_kept_on(outputs, keep),
{
    let w = woken_outputs(outputs);
    let l = woken_ids(outputs, keep);
    let goal = with_kept_on(outputs, keep);
    assert(output_ids(w) =~= output_ids(outputs));
    assert forall|j: int| 0 <= j < outputs.len() implies #[trigger] restored_outputs(w, l)[j] == goal[j] by {
        let x = outputs[j].identity.id@;
        lemma_first_index_unique(output_ids(outputs), x, j);
        lemma_woken_ids_members(outputs, keep, x);
        if !outputs[j].enabled && keep != Some(x) {
            let i = choose|i: int| 0 <= i < l.len() && l[i] == x;
            assert(first_index(output_ids(w), l[i]) == Some(j));
            assert(restored_off(w, l, j));
        } else {
            if restored_off(w, l, j) {
                let i = choose|i: int|
                    0 <= i < l.len() && first_index(output_ids(w), #[trigger] l[i]) == Some(j);
                lemma_first_index(output_ids(w), l[i]);
                assert(l.contains(l[i]));
                lemma_woken_ids_members(outputs, keep, l[i]);
                let j2 = choose|j2: int|
                    0 <= j2 < outputs.len() && (#[trigger] outputs[j2]).identity.id@ == l[i]
                        && !outputs[j2].enabled && keep != Some(l[i]);
                if j2 != j {
                    assert(outputs[j2].identity.id@ == outputs[j].identity.id@);
                    if j2 < j {
                        assert(outputs[j2].identity.id@ != outputs[j].identity.id@);
                    } else {
                        assert(outputs[j].identity.id@ != outputs[j2].identity.id@);
                    }
                }
            }
        }
    }
    assert(restored_outputs(w, l) =~= goal);
}

/// After waking, every output is enabled, and nothing but the enabled flags
/// changes.
pub proof fn lemma_wake_enables(outputs: Seq<OutputState>)
    ensures
        forall|j: int| 0 <= j < outputs.len() ==> (#[trigger] woken_outputs(outputs)[j]).enabled,
        forall|j: int|
            0 <= j < outputs.len() ==> (OutputState { enabled: outputs[j].enabled, ..#[trigger] woken_outputs(
                outputs,
            )[j] }) == outputs[j],
        output_ids(woken_outputs(outputs)) == output_ids(outputs),
{
    assert(output_ids(woken_outputs(outputs)) =~= output_ids(outputs));
}

/// A restore keeps every identifier where it was.
pub proof fn lemma_restore_keeps_ids(outputs: Seq<OutputState>, ids: Seq<Seq<char>>)
    ensures
        output_ids(restored_outputs(outputs, ids)) == output_ids(outputs),
{
    assert(output_ids(restored_outputs(outputs, ids)) =~= output_ids(outputs));
}

/// The identifier to keep, by value.
pub open spec fn keep_view(keep: Option<&DisplayId>) -> Option<Seq<char>> {
    match keep {
        Some(k) => Some(k@),
        None => None,
    }
}

/// Position of the first output named `id`.
pub fn find_output(outputs: &Vec<OutputState>, id: &DisplayId) -> (res: Option<usize>)
    ensures
        match res {
            Some(k) => first_index(output_ids(outputs@), id@) == Some(k as int) && k < outputs@.len(),
            None => first_index(output_ids(outputs@), id@) is None,
        },
{
    let n = outputs.len();
    let ghost ids = output_ids(outputs@);
    let mut i: usize = 0;
    while i < n
        invariant
            n == outputs@.len(),
            ids == output_ids(outputs@),
            i <= n,
            first_index(ids, id@) == first_from(ids, id@, i as int),
        decreases n - i,
    {
        if outputs[i].identity.id.same_as(id) {
            return Some(i);
        }
        i = i + 1;
    }
    None
}

/// Enables every disabled output, and returns the identifiers of those it
/// enabled other than `keep_active`, in order: restoring them leaves the kept
/// output on.
pub fn wake_outputs(outputs: &mut Vec<OutputState>, keep_active: Option<&DisplayId>) -> (res: Vec<
    DisplayId,
>)
    ensures
        final(outputs)@ == woken_outputs(old(outputs)@),
        res@.map_values(|d: DisplayId| d@) == woken_ids(
            old(outputs)@,
            keep_view(keep_active),
        ),
{
    let ghost keep: Option<Seq<char>> = keep_view(keep_active);
    let mut activated: Vec<DisplayId> = Vec::new();
    let n = outputs.len();
    for i in 0..n
        invariant
            n == outputs@.len(),
            n == old(outputs)@.len(),
            keep == keep_view(keep_active),
            forall|j: int| 0 <= j < i ==> outputs@[j] == woken_outputs(old(outputs)@)[j],
            forall|j: int| i <= j < n ==> outputs@[j] == old(outputs)@[j],
            activated@.map_values(|d: DisplayId| d@) == woken_ids(old(outputs)@.subrange(0, i as int), keep),
    {
        proof {
            assert(old(outputs)@.subrange(0, i + 1).drop_last() =~= old(outputs)@.subrange(0, i as int));
        }
        if !outputs[i].enabled {
            let skip = match keep_active {
                Some(k) => outputs[i].identity.id.same_as(k),
                None => false,
            };
            outputs[i].enabled = true;
            if !skip {
                let id = outputs[i].identity.id.clone();
                let ghost before = activated@;
                activated.push(id);
                proof {
                    assert(activated@.map_values(|d: DisplayId| d@) =~= before.map_values(|d: DisplayId| d@).push(id@));
                }
            }
        }
    }
    proof {
        assert(old(outputs)@.subrange(0, n as int) =~= old(outputs)@);
        assert(outputs@ =~= woken_outputs(old(outputs)@));
    }
    activated
}

/// Disables again the first output named by each entry of `inactive_ids`,
/// as [`wake_outputs`] reported them.
pub fn restore_outputs(outputs: &mut Vec<OutputState>, inactive_ids: &[DisplayId])
    ensures
        final(outputs)@ == restored_outputs(
            old(outputs)@,
            inactive_ids@.map_values(|d: DisplayId| d@),
        ),
{
    let ghost ids = inactive_ids@.map_values(|d: DisplayId| d@);
    let ghost orig = outputs@;
    let m = inactive_ids.len();
    for i in 0..m
        invariant
            m == inactive_ids@.len(),
            ids == inactive_ids@.map_values(|d: DisplayId| d@),
            orig == old(outputs)@,
            outputs@ == restored_outputs(orig, ids.subrange(0, i as int)),
            output_ids(outputs@) == output_ids(orig),
    {
        let ghost before = outputs@;
        match find_output(outputs, &inactive_ids[i]) {
            Some(k) => {
                outputs[k].enabled = false;
            },
            None => {},
        }
        proof {
            let pre = ids.subrange(0, i as int);
            let post = ids.subrange(0, i + 1);
            lemma_first_index(output_ids(orig), ids[i as int]);
            assert forall|j: int| 0 <= j < orig.len() implies restored_off(orig, post, j) == (
            restored_off(orig, pre, j) || first_index(output_ids(orig), ids[i as int]) == Some(j)) by {
                if restored_off(orig, post, j) {
                    let w = choose|w: int| 0 <= w < post.len() && first_index(output_ids(orig), #[trigger] post[w]) == Some(j);
                    if w < i {
                        assert(pre[w] == post[w]);
                    }
                }
                if restored_off(orig, pre, j) {
                    let w = choose|w: int| 0 <= w < pre.len() && first_index(output_ids(orig), #[trigger] pre[w]) == Some(j);
                    assert(post[w] == pre[w]);
                }
                if first_index(output_ids(orig), ids[i as int]) == Some(j) {
                    assert(post[i as int] == ids[i as int]);
                }
            }
            assert(outputs@ =~= restored_outputs(orig, post));
            assert(output_ids(outputs@) =~= output_ids(orig));
        }
    }
    proof {
        assert(ids.subrange(0, m as int) =~= ids);
    }
}

} // verus!
