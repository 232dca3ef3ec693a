//! How a probed DRM connector is described as an output.
use vstd::prelude::*;
use vstd::string::StringExecFns;

use crate::text::{decimal, u32_to_decimal};
use crate::traits::{first_from, first_index, lemma_first_index};
use crate::types::{
    AdapterId, ConnectorId, DisplayId, DisplayIdentity, DisplayRotation, Extent2D, HdrMode,
    HdrState, OutputState, OutputStateView, Point2D, Rect,
};
use super::displmgr_drm_sys::DrmResourceIds;
use super::{resource_ids, resource_lookup};

verus! {

/// The identifier of the output on a connector: its interface type and the
/// connector's number among those of that type, as in `DRM-KMS-HDMI-A-1`.
pub open spec fn drm_display_name(interface: Seq<char>, interface_id: u32) -> Seq<char> {
    "DRM-KMS-"@ + interface + "-"@ + decimal(interface_id as nat)
}

/// Two connectors of one interface type with different numbers get
/// different identifiers.
pub proof fn lemma_drm_names_distinct(interface: Seq<char>, a: u32, b: u32)
    requires
        a != b,
    ensures
        drm_display_name(interface, a) != drm_display_name(interface, b),
{
    let pre = "DRM-KMS-"@ + interface + "-"@;
    assert(drm_display_name(interface, a) == pre + decimal(a as nat));
    assert(drm_display_name(interface, b) == pre + decimal(b as nat));
    if drm_display_name(interface, a) == drm_display_name(interface, b) {
        let x = pre + decimal(a as nat);
        assert(x.subrange(pre.len() as int, x.len() as int) =~= decimal(a as nat));
        assert((pre + decimal(b as nat)).subrange(pre.len() as int, x.len() as int) =~= decimal(b as nat));
        crate::text::lemma_decimal_digits(a as nat);
        crate::text::lemma_decimal_digits(b as nat);
    }
}

/// The size an output is reported with: its first mode, or 1920x1080 when
/// the connector lists none.
pub open spec fn probed_size(first_mode: Option<(u16, u16)>) -> Extent2D {
    match first_mode {
        Some((w, h)) => Extent2D { width: w as u32, height: h as u32 },
        None => Extent2D { width: 1920, height: 1080 },
    }
}

/// How a connected connector with an active CRTC is reported.
pub open spec fn probed_output_view(
    interface: Seq<char>,
    interface_id: u32,
    first_mode: Option<(u16, u16)>,
) -> OutputStateView {
    OutputStateView {
        id: drm_display_name(interface, interface_id),
        connector_id: "DRM-Port-"@ + decimal(interface_id as nat),
        adapter_id: "/dev/dri/card0"@,
        hardware_uuid: None,
        monitor_name: drm_display_name(interface, interface_id),
        geometry: Rect { origin: Point2D { x: 0, y: 0 }, size: probed_size(first_mode) },
        refresh_rate: 60000,
        rotation: DisplayRotation::Rotate0,
        hdr_state: HdrState::Disabled,
        hdr_mode: HdrMode::Default,
        scale_percent: 100,
        native_resolution: Some(probed_size(first_mode)),
        supported_modes: Seq::empty(),
        enabled: true,
        is_primary: false,
    }
}

/// Describes a connected connector, driven by a CRTC, as an output: its
/// identifier and monitor name come from the interface type and the
/// connector's number, its size from
/// the first listed mode (1920x1080 when there is none), and the refresh
/// rate is reported as 60 Hz.
pub fn connector_output(interface: &str, interface_id: u32, first_mode: Option<(u16, u16)>) -> (res:
    OutputState)
    ensures
        res@ == probed_output_view(interface@, interface_id, first_mode),
{
    let size = match first_mode {
        Some((w, h)) => Extent2D { width: w as u32, height: h as u32 },
        None => Extent2D { width: 1920, height: 1080 },
    };
    let number = u32_to_decimal(interface_id);
    let display_str = String::from_str("DRM-KMS-").concat(interface).concat("-").concat(number.as_str());
    let port = String::from_str("DRM-Port-").concat(number.as_str());
    OutputState {
        identity: DisplayIdentity {
            id: DisplayId(display_str.clone()),
            connector_id: ConnectorId(port),
            adapter_id: AdapterId(String::from_str("/dev/dri/card0")),
            hardware_uuid: None,
            monitor_name: display_str,
        },
        geometry: Rect { origin: Point2D { x: 0, y: 0 }, size },
        refresh_rate: 60000,
        rotation: DisplayRotation::Rotate0,
        hdr_state: HdrState::Disabled,
        hdr_mode: HdrMode::Default,
        scale_percent: 100,
        native_resolution: Some(size),
        supported_modes: Vec::new(),
        enabled: true,
        is_primary: false,
    }
}

/// Records the kernel objects of the output named `id`, replacing an
/// earlier record for the same identifier.
pub fn record_resources(map: &mut Vec<(DisplayId, DrmResourceIds)>, id: DisplayId, ids: DrmResourceIds)
    ensures
        resource_lookup(final(map)@, id@) == Some(ids),
        forall|other: Seq<char>|
            other != id@ ==> resource_lookup(final(map)@, other) == resource_lookup(old(map)@, other),
        forall|k: int|
            0 <= k < final(map)@.len() ==> (#[trigger] final(map)@[k]).1 == ids || exists|j: int|
                0 <= j < old(map)@.len() && old(map)@[j].1 == final(map)@[k].1,
{
    let ghost old_map = map@;
    let ghost key = id@;
    let n = map.len();
    let mut i: usize = 0;
    while i < n
        invariant
            n == map@.len(),
            map@ == old_map,
            old_map == old(map)@,
            i <= n,
            first_index(resource_ids(old_map), key) == first_from(resource_ids(old_map), key, i as int),
            key == id@,
        decreases n - i,
    {
        if map[i].0.same_as(&id) {
            map[i].1 = ids;
            proof {
                assert(resource_ids(old_map)[i as int] == key);
                assert(first_index(resource_ids(old_map), key) == Some(i as int));
                lemma_first_index(resource_ids(old_map), key);
                assert(resource_ids(map@) =~= resource_ids(old_map));
                assert forall|other: Seq<char>| other != key implies resource_lookup(map@, other)
                    == resource_lookup(old_map, other) by {
                    lemma_first_index(resource_ids(old_map), other);
                    if let Some(k) = first_index(resource_ids(old_map), other) {
                        assert(k != i);
                        assert(map@[k] == old_map[k]);
                    }
                }
                assert forall|k: int| 0 <= k < map@.len() implies (#[trigger] map@[k]).1 == ids
                    || exists|j: int| 0 <= j < old_map.len() && old_map[j].1 == map@[k].1 by {
                    if k != i {
                        assert(old_map[k].1 == map@[k].1);
                    }
                }
            }
            return;
        }
        i = i + 1;
    }
    map.push((id, ids));
    proof {
        lemma_first_index(resource_ids(old_map), key);
        assert(resource_ids(map@) =~= resource_ids(old_map).push(key));
        crate::traits::lemma_first_index_push(resource_ids(old_map), key, key);
        assert forall|other: Seq<char>| other != key implies resource_lookup(map@, other)
            == resource_lookup(old_map, other) by {
            crate::traits::lemma_first_index_push(resource_ids(old_map), key, other);
            lemma_first_index(resource_ids(old_map), other);
            if let Some(k) = first_index(resource_ids(old_map), other) {
                assert(map@[k] == old_map[k]);
            }
        }
        assert forall|k: int| 0 <= k < map@.len() implies (#[trigger] map@[k]).1 == ids
            || exists|j: int| 0 <= j < old_map.len() && old_map[j].1 == map@[k].1 by {
            if k < old_map.len() {
                assert(old_map[k].1 == map@[k].1);
            }
        }
    }
}

} // verus!
