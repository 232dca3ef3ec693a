//! Linux display management backends.
//!
//! Four backends share one interface: wlroots output management, DRM/KMS,
//! KDE Plasma (KScreen) and udev/sysfs. [`LinuxTopology`] holds whichever
//! one was chosen and forwards every operation to it.
use vstd::prelude::*;

use crate::error::{DisplayError, DisplayResult};
use crate::traits::{first_index, lemma_first_index, OutputEdit};
use crate::types::{is_default_output, DisplayId, OutputState, OutputStateView};

use self::displmgr_drm::{drm_edit, drm_wf, DrmTopology};
use self::displmgr_kde::{kde_edit, kde_ids, kde_output_view, KdeOutputState, KdeTopology, KdeTopologyView};
use self::displmgr_udev::{
    udev_edit_outcome, udev_ids, udev_output_view, UdevOutputState, UdevTopology, UdevTopologyView,
};
use self::displmgr_wlr::{wlr_edit, WlrTopology, WlrView};
use crate::backends::wake::output_ids;

/// KDE Plasma / KScreen backend for display management.
pub mod displmgr_kde;

/// Generic Linux udev backend for display management.
pub mod displmgr_udev;

/// DRM/KMS backend for X11 and bare-metal Linux environments.
pub mod displmgr_drm;

/// wlroots output management (`zwlr-output-management-v1`).
pub mod displmgr_wlr;

verus! {

/// Identifies which Linux display backend to use.
#[derive(Debug, Clone, Copy, PartialEq, Eq, Structural)]
pub enum LinuxBackendVariant {
    /// Wayland/wlroots protocol (`zwlr-output-management-v1`).
    Wlr,
    /// Direct DRM/KMS atomic mode-setting.
    Drm,
    /// KDE Plasma D-Bus (KScreen).
    Kde,
    /// udev/sysfs enumeration.
    Udev,
}

/// The backend an environment calls for, in order of priority: a Wayland
/// display, then a KDE session, then the DRM class in sysfs, then raw DRM.
pub open spec fn detected_variant(
    wayland_display_set: bool,
    kde_full_session_set: bool,
    drm_class_present: bool,
) -> LinuxBackendVariant {
    if wayland_display_set {
        LinuxBackendVariant::Wlr
    } else if kde_full_session_set {
        LinuxBackendVariant::Kde
    } else if drm_class_present {
        LinuxBackendVariant::Udev
    } else {
        LinuxBackendVariant::Drm
    }
}

impl LinuxBackendVariant {
    /// Chooses the backend from what the environment offers: whether
    /// `WAYLAND_DISPLAY` is set, whether `KDE_FULL_SESSION` is set, and
    /// whether `/sys/class/drm/` exists.
    pub fn from_environment(
        wayland_display_set: bool,
        kde_full_session_set: bool,
        drm_class_present: bool,
    ) -> (res: Self)
        ensures
            res == detected_variant(wayland_display_set, kde_full_session_set, drm_class_present),
    {
        if wayland_display_set {
            LinuxBackendVariant::Wlr
        } else if kde_full_session_set {
            LinuxBackendVariant::Kde
        } else if drm_class_present {
            LinuxBackendVariant::Udev
        } else {
            LinuxBackendVariant::Drm
        }
    }
}

/// Runtime-selectable Linux display topology, forwarding to one of the four
/// backends.
#[derive(Debug)]
pub enum LinuxTopology {
    /// Wayland/wlroots backend.
    Wlr(WlrTopology),
    /// DRM/KMS backend.
    Drm(DrmTopology),
    /// KDE Plasma backend.
    Kde(KdeTopology),
    /// udev/sysfs backend.
    Udev(UdevTopology),
}

/// The backend a topology forwards to.
pub open spec fn variant_of(t: LinuxTopology) -> LinuxBackendVariant {
    match t {
        LinuxTopology::Wlr(_) => LinuxBackendVariant::Wlr,
        LinuxTopology::Drm(_) => LinuxBackendVariant::Drm,
        LinuxTopology::Kde(_) => LinuxBackendVariant::Kde,
        LinuxTopology::Udev(_) => LinuxBackendVariant::Udev,
    }
}

/// The outputs a topology reports, in order.
pub open spec fn linux_reported(t: LinuxTopology) -> Seq<OutputStateView> {
    match t {
        LinuxTopology::Wlr(w) => w.state@.states.map_values(|o: OutputState| o@),
        LinuxTopology::Drm(d) => d.outputs@.map_values(|o: OutputState| o@),
        LinuxTopology::Kde(k) => k.outputs@.map_values(|o: KdeOutputState| kde_output_view(o)),
        LinuxTopology::Udev(u) => u.outputs@.map_values(|o: UdevOutputState| udev_output_view(o)),
    }
}

/// The identifiers of the outputs of a topology, in order.
pub open spec fn linux_ids(t: LinuxTopology) -> Seq<Seq<char>> {
    match t {
        LinuxTopology::Wlr(w) => output_ids(w.state@.states),
        LinuxTopology::Drm(d) => output_ids(d.outputs@),
        LinuxTopology::Kde(k) => kde_ids(k.outputs@),
        LinuxTopology::Udev(u) => udev_ids(u.outputs@),
    }
}

/// The invariant of the chosen backend: the DRM one refers only to valid
/// kernel objects; the others have none.
pub open spec fn linux_wf(t: LinuxTopology) -> bool {
    match t {
        LinuxTopology::Drm(d) => drm_wf(d@),
        _ => true,
    }
}

/// Staging `e` on `target` took `pre` to `post` with result `r`, as the
/// chosen backend stages it; the backend itself does not change.
pub open spec fn linux_edit_outcome(
    pre: LinuxTopology,
    target: DisplayId,
    e: OutputEdit,
    post: LinuxTopology,
    r: DisplayResult<()>,
) -> bool {
    match pre {
        LinuxTopology::Wlr(a) => post matches LinuxTopology::Wlr(b) && (b.state@, r) == wlr_edit(
            a.state@,
            target,
            e,
        ),
        LinuxTopology::Drm(a) => post matches LinuxTopology::Drm(b) && (b@, r) == drm_edit(
            a@,
            target,
            e,
        ) && drm_wf(b@),
        LinuxTopology::Kde(a) => post matches LinuxTopology::Kde(b) && (b@, r) == kde_edit(
            a@,
            target,
            e,
        ),
        LinuxTopology::Udev(a) => post matches LinuxTopology::Udev(b) && udev_edit_outcome(
            a@,
            target,
            e,
            b@,
            r,
        ),
    }
}

/// `post` is `pre` with persistence set to `enabled` where the backend keeps
/// such a setting; DRM applies its changes directly and keeps none.
pub open spec fn linux_persistence_set(pre: LinuxTopology, post: LinuxTopology, enabled: bool) -> bool {
    match pre {
        LinuxTopology::Wlr(a) => post matches LinuxTopology::Wlr(b) && b.state@ == (WlrView {
            persist: enabled,
            ..a.state@
        }),
        LinuxTopology::Drm(a) => post matches LinuxTopology::Drm(b) && b@ == a@,
        LinuxTopology::Kde(a) => post matches LinuxTopology::Kde(b) && b@ == (KdeTopologyView {
            persistence_enabled: enabled,
            ..a@
        }),
        LinuxTopology::Udev(a) => post matches LinuxTopology::Udev(b) && b@ == (UdevTopologyView {
            persistence_enabled: enabled,
            ..a@
        }),
    }
}

impl LinuxTopology {
    /// Returns the currently active backend variant.
    pub fn variant(&self) -> (res: LinuxBackendVariant)
        ensures
            res == variant_of(*self),
    {
        match self {
            LinuxTopology::Wlr(_) => LinuxBackendVariant::Wlr,
            LinuxTopology::Drm(_) => LinuxBackendVariant::Drm,
            LinuxTopology::Kde(_) => LinuxBackendVariant::Kde,
            LinuxTopology::Udev(_) => LinuxBackendVariant::Udev,
        }
    }
    /// Returns the state of every output of the chosen backend.
    pub fn get_outputs(&self) -> (res: Vec<OutputState>)
        ensures
            res@.len() == linux_reported(*self).len(),
            forall|j: int| 0 <= j < res@.len() ==> #[trigger] res@[j]@ == linux_reported(*self)[j],
    {
        match self {
            LinuxTopology::Wlr(inner) => inner.get_outputs(),
            LinuxTopology::Drm(inner) => inner.get_outputs(),
            LinuxTopology::Kde(inner) => inner.get_outputs(),
            LinuxTopology::Udev(inner) => inner.get_outputs(),
        }
    }

    /// The state of the output named `id`, or the default output state when
    /// there is none.
    pub fn get_state(&self, id: &DisplayId) -> (res: OutputState)
        ensures
            match first_index(linux_ids(*self), id@) {
                Some(k) => res@ == linux_reported(*self)[k],
                None => is_default_output(res@),
            },
    {
        proof {
            crate::traits::lemma_first_index(linux_ids(*self), id@);
        }
        match self {
            LinuxTopology::Wlr(inner) => inner.get_state(id),
            LinuxTopology::Drm(inner) => inner.get_state(id),
            LinuxTopology::Kde(inner) => inner.get_state(id),
            LinuxTopology::Udev(inner) => inner.get_state(id),
        }
    }

    /// Checks that an editor can be opened on the output named `id`.
    pub fn edit_output(&self, id: &DisplayId) -> (res: DisplayResult<()>)
        ensures
            res is Ok <==> first_index(linux_ids(*self), id@) is Some,
            res is Err ==> res == Err::<(), DisplayError>(DisplayError::NotFound(*id)),
    {
        match self {
            LinuxTopology::Wlr(inner) => inner.edit_output(id),
            LinuxTopology::Drm(inner) => inner.edit_output(id),
            LinuxTopology::Kde(inner) => inner.edit_output(id),
            LinuxTopology::Udev(inner) => inner.edit_output(id),
        }
    }

    /// Toggles persistence of configuration changes on the chosen backend.
    pub fn set_persistence(&mut self, enabled: bool)
        ensures
            linux_persistence_set(*old(self), *final(self), enabled),
    {
        match self {
            LinuxTopology::Wlr(inner) => inner.set_persistence(enabled),
            LinuxTopology::Drm(_) => {},
            LinuxTopology::Kde(inner) => inner.set_persistence(enabled),
            LinuxTopology::Udev(inner) => inner.set_persistence(enabled),
        }
    }

    /// Stages `edit` on the output named `target` through the chosen backend.
    pub fn apply_edit(&mut self, target: &DisplayId, edit: &OutputEdit) -> (res: DisplayResult<()>)
        requires
            linux_wf(*old(self)),
        ensures
            linux_edit_outcome(*old(self), *target, *edit, *final(self), res),
            linux_wf(*final(self)),
    {
        match self {
            LinuxTopology::Wlr(inner) => inner.apply_edit(target, edit),
            LinuxTopology::Drm(inner) => inner.apply_edit(target, edit),
            LinuxTopology::Kde(inner) => inner.apply_edit(target, edit),
            LinuxTopology::Udev(inner) => inner.apply_edit(target, edit),
        }
    }
}

/// Staging `Enabled(true)` on an output that exists switches that output on,
/// leaves every other output and the identifiers as they were, and keeps the
/// backend.
pub proof fn lemma_linux_enable(pre: LinuxTopology, id: DisplayId, post: LinuxTopology, r: DisplayResult<()>)
    requires
        linux_edit_outcome(pre, id, OutputEdit::Enabled(true), post, r),
        first_index(linux_ids(pre), id@) is Some,
    ensures
        variant_of(post) == variant_of(pre),
        linux_ids(post) == linux_ids(pre),
        linux_reported(post).len() == linux_reported(pre).len(),
        first_index(linux_ids(pre), id@) matches Some(k) && linux_reported(post)[k] == (OutputStateView {
            enabled: true,
            ..linux_reported(pre)[k]
        }) && forall|j: int|
            0 <= j < linux_reported(pre).len() && j != k ==> linux_reported(post)[j] == linux_reported(pre)[j],
{
    lemma_first_index(linux_ids(pre), id@);
    let k = first_index(linux_ids(pre), id@)->Some_0;
    match pre {
        LinuxTopology::Wlr(a) => {
            let b = post->Wlr_0;
            assert(output_ids(b.state@.states) =~= output_ids(a.state@.states));
        },
        LinuxTopology::Drm(a) => {
            let b = post->Drm_0;
            assert(output_ids(b.outputs@) =~= output_ids(a.outputs@));
        },
        LinuxTopology::Kde(a) => {
            let b = post->Kde_0;
            assert(kde_ids(b.outputs@) =~= kde_ids(a.outputs@));
        },
        LinuxTopology::Udev(a) => {
            let b = post->Udev_0;
            assert(udev_ids(b.outputs@) =~= udev_ids(a.outputs@));
        },
    }
}

/// The identifier each reported output carries is its entry in
/// [`linux_ids`].
pub proof fn lemma_linux_reported_ids(t: LinuxTopology, j: int)
    requires
        0 <= j < linux_reported(t).len(),
    ensures
        linux_ids(t).len() == linux_reported(t).len(),
        linux_reported(t)[j].id == linux_ids(t)[j],
{
}

/// Stages switching every output on, in the order the topology reports
/// them, skipping any that no editor opens for.
pub fn force_all_displays(topology: &mut LinuxTopology) -> (res: Result<(), String>)
    requires
        linux_wf(*old(topology)),
    ensures
        res is Ok,
        variant_of(*final(topology)) == variant_of(*old(topology)),
        linux_wf(*final(topology)),
        linux_ids(*final(topology)) == linux_ids(*old(topology)),
        linux_reported(*final(topology)).len() == linux_reported(*old(topology)).len(),
        forall|k: int|
            0 <= k < linux_reported(*old(topology)).len() ==> #[trigger] linux_reported(*final(topology))[k]
                == if first_index(linux_ids(*old(topology)), linux_ids(*old(topology))[k]) == Some(k) {
                OutputStateView { enabled: true, ..linux_reported(*old(topology))[k] }
            } else {
                linux_reported(*old(topology))[k]
            },
{
    let ghost ids = linux_ids(*topology);
    let outputs = topology.get_outputs();
    let n = outputs.len();
    for i in 0..n
        invariant
            n == outputs@.len(),
            n == linux_reported(*old(topology)).len(),
            ids == linux_ids(*old(topology)),
            linux_ids(*topology) == ids,
            linux_reported(*topology).len() == n,
            forall|j: int| 0 <= j < n ==> #[trigger] outputs@[j]@ == linux_reported(*old(topology))[j],
            variant_of(*topology) == variant_of(*old(topology)),
            linux_wf(*topology),
            forall|k: int|
                0 <= k < n ==> #[trigger] linux_reported(*topology)[k] == if k < i && first_index(ids, ids[k])
                    == Some(k) {
                    OutputStateView { enabled: true, ..linux_reported(*old(topology))[k] }
                } else {
                    linux_reported(*old(topology))[k]
                },
    {
        let id = &outputs[i].identity.id;
        proof {
            lemma_linux_reported_ids(*old(topology), i as int);
            assert(outputs@[i as int]@ == linux_reported(*old(topology))[i as int]);
            assert(id@ == ids[i as int]);
        }
        if topology.edit_output(id).is_ok() {
            let ghost pre = *topology;
            let r = topology.apply_edit(id, &OutputEdit::Enabled(true));
            proof {
                lemma_linux_enable(pre, *id, *topology, r);
                lemma_first_index(ids, id@);
                let kk = first_index(ids, id@)->Some_0;
                assert(ids[i as int] == id@);
                assert forall|k: int| 0 <= k < n implies #[trigger] linux_reported(*topology)[k] == if k < i + 1
                    && first_index(ids, ids[k]) == Some(k) {
                    OutputStateView { enabled: true, ..linux_reported(*old(topology))[k] }
                } else {
                    linux_reported(*old(topology))[k]
                } by {
                    if k != kk {
                        assert(linux_reported(*topology)[k] == linux_reported(pre)[k]);
                        if k == i {
                            assert(ids[k] == id@);
                        }
                    } else {
                        if kk < i {
                            assert(first_index(ids, ids[kk]) == Some(kk));
                        }
                    }
                }
            }
        } else {
            proof {
                lemma_first_index(ids, id@);
            }
        }
    }
    Ok(())
}

/// Whichever backend is chosen, an edit staged through the topology that
/// succeeds shows in the state it reports for the output named (read after
/// write), and the backend and the output identifiers stay as they were.
pub proof fn lemma_linux_read_after_write(
    pre: LinuxTopology,
    id: DisplayId,
    e: OutputEdit,
    post: LinuxTopology,
    r: DisplayResult<()>,
)
    requires
        linux_edit_outcome(pre, id, e, post, r),
        r is Ok,
        !(e is CloneFrom),
    ensures
        variant_of(post) == variant_of(pre),
        linux_ids(post) == linux_ids(pre),
        first_index(linux_ids(pre), id@) matches Some(k) && crate::traits::view_reflects(
            linux_reported(post)[k],
            e,
        ),
{
    match pre {
        LinuxTopology::Wlr(a) => {
            let b = post->Wlr_0;
            if e is Primary {
                displmgr_wlr::lemma_wlr_primary_exclusive(a.state@, id);
            } else {
                displmgr_wlr::lemma_wlr_read_after_write(a.state@, id, e);
            }
            displmgr_wlr::lemma_wlr_edit_keeps_heads(a.state@, id, e);
            lemma_first_index(output_ids(a.state@.states), id@);
            let k = first_index(output_ids(a.state@.states), id@)->Some_0;
            assert(b.state@ == wlr_edit(a.state@, id, e).0);
            assert(k < b.state@.states.len());
            assert(output_ids(b.state@.states).len() == output_ids(a.state@.states).len());
            assert(linux_reported(post)[k] == b.state@.states[k]@);
        },
        LinuxTopology::Drm(a) => {
            let b = post->Drm_0;
            displmgr_drm::lemma_drm_read_after_write(a@, id, e);
            displmgr_drm::lemma_drm_edit_keeps_outputs(a@, id, e);
            lemma_first_index(output_ids(a.outputs@), id@);
            let k = first_index(output_ids(a.outputs@), id@)->Some_0;
            assert(b@ == drm_edit(a@, id, e).0);
            assert(output_ids(b.outputs@).len() == output_ids(a.outputs@).len());
            assert(linux_reported(post)[k] == b.outputs@[k]@);
        },
        LinuxTopology::Kde(a) => {
            let b = post->Kde_0;
            displmgr_kde::lemma_kde_read_after_write(a@, id, e);
            displmgr_kde::lemma_kde_edit_keeps_outputs(a@, id, e);
            lemma_first_index(kde_ids(a.outputs@), id@);
            let k = first_index(kde_ids(a.outputs@), id@)->Some_0;
            assert(b@ == kde_edit(a@, id, e).0);
            assert(kde_ids(b.outputs@).len() == kde_ids(a.outputs@).len());
            assert(linux_reported(post)[k] == kde_output_view(b.outputs@[k]));
        },
        LinuxTopology::Udev(a) => {
            let b = post->Udev_0;
            displmgr_udev::lemma_udev_read_after_write(a@, id, e);
            displmgr_udev::lemma_udev_staged_edit_keeps_outputs(a@, id, e);
            lemma_first_index(udev_ids(a.outputs@), id@);
            let k = first_index(udev_ids(a.outputs@), id@)->Some_0;
            assert(udev_ids(b.outputs@).len() == udev_ids(a.outputs@).len());
            assert(linux_reported(post)[k] == udev_output_view(b.outputs@[k]));
        },
    }
}

} // verus!
