//! DRM rotation values, kernel object identifiers, the property cache, and the
//! atomic request that staged property writes are collected in.
use vstd::prelude::*;
use vstd::string::StringExecFns;

use crate::traits::{first_index, lemma_first_index};
use crate::types::DisplayRotation;
use drm::control::atomic::AtomicModeReq;

verus! {

/// DRM rotation bit-mask: no rotation.
pub const DRM_MODE_ROTATE_0: u64 = 1;

/// DRM rotation bit-mask: 90 degrees.
pub const DRM_MODE_ROTATE_90: u64 = 2;

/// DRM rotation bit-mask: 180 degrees.
pub const DRM_MODE_ROTATE_180: u64 = 4;

/// DRM rotation bit-mask: 270 degrees.
pub const DRM_MODE_ROTATE_270: u64 = 8;

/// The DRM `rotation` property value of a rotation: one bit per quarter turn.
pub open spec fn drm_rotation_value(rotation: DisplayRotation) -> u64 {
    match rotation {
        DisplayRotation::Rotate0 => DRM_MODE_ROTATE_0,
        DisplayRotation::Rotate90 => DRM_MODE_ROTATE_90,
        DisplayRotation::Rotate180 => DRM_MODE_ROTATE_180,
        DisplayRotation::Rotate270 => DRM_MODE_ROTATE_270,
    }
}

/// Maps rotations to raw Linux DRM atomic property values.
pub fn rotation_to_drm_value(rotation: DisplayRotation) -> (res: u64)
    ensures
        res == drm_rotation_value(rotation),
{
    match rotation {
        DisplayRotation::Rotate0 => DRM_MODE_ROTATE_0,
        DisplayRotation::Rotate90 => DRM_MODE_ROTATE_90,
        DisplayRotation::Rotate180 => DRM_MODE_ROTATE_180,
        DisplayRotation::Rotate270 => DRM_MODE_ROTATE_270,
    }
}

/// Distinct rotations get distinct property values, each a single bit.
pub proof fn lemma_drm_rotation_values_distinct(a: DisplayRotation, b: DisplayRotation)
    ensures
        (drm_rotation_value(a) == drm_rotation_value(b)) <==> a == b,
        drm_rotation_value(a) == 1 || drm_rotation_value(a) == 2 || drm_rotation_value(a) == 4
            || drm_rotation_value(a) == 8,
{
}

/// The kernel object identifiers behind one output: its connector, the CRTC
/// driving it, and the primary plane scanned out on it.
#[derive(Debug, Clone, Copy, PartialEq, Eq, Structural)]
pub struct DrmResourceIds {
    /// Connector object id.
    pub connector_id: u32,
    /// CRTC object id.
    pub crtc_id: u32,
    /// Primary plane object id.
    pub primary_plane_id: u32,
}

/// Property identifiers by connector and by property name.
#[derive(Debug)]
pub struct DrmPropertyCache {
    /// For each connector id, its properties as (name, property id).
    pub props: Vec<(u32, Vec<(String, u32)>)>,
}

/// The connector ids of a property cache, in order.
pub open spec fn cache_connectors(props: Seq<(u32, Vec<(String, u32)>)>) -> Seq<u32> {
    props.map_values(|e: (u32, Vec<(String, u32)>)| e.0)
}

/// The property names of one connector, in order.
pub open spec fn prop_names(entries: Seq<(String, u32)>) -> Seq<Seq<char>> {
    entries.map_values(|p: (String, u32)| p.0@)
}

/// The property id cached for connector `conn` under `name`.
pub open spec fn prop_lookup(props: Seq<(u32, Vec<(String, u32)>)>, conn: u32, name: Seq<char>) -> Option<
    u32,
> {
    match first_index(cache_connectors(props), conn) {
        None => None,
        Some(c) => {
            let entries = props[c].1@;
            match first_index(prop_names(entries), name) {
                None => None,
                Some(k) => Some(entries[k].1),
            }
        },
    }
}

/// Every property id in the cache is a valid (nonzero) kernel object id.
pub open spec fn cache_ids_nonzero(props: Seq<(u32, Vec<(String, u32)>)>) -> bool {
    forall|c: int, k: int|
        0 <= c < props.len() && 0 <= k < props[c].1@.len() ==> #[trigger] props[c].1@[k].1 != 0
}

fn find_u32(keys: &Vec<(u32, Vec<(String, u32)>)>, key: u32) -> (res: Option<usize>)
    ensures
        match res {
            Some(k) => first_index(cache_connectors(keys@), key) == Some(k as int) && k < keys@.len(),
            None => first_index(cache_connectors(keys@), key) is None,
        },
{
    let ghost ids = cache_connectors(keys@);
    let n = keys.len();
    let mut i: usize = 0;
    while i < n
        invariant
            n == keys@.len(),
            ids == cache_connectors(keys@),
            i <= n,
            first_index(ids, key) == crate::traits::first_from(ids, key, i as int),
        decreases n - i,
    {
        if keys[i].0 == key {
            return Some(i);
        }
        i = i + 1;
    }
    None
}

fn find_name(entries: &Vec<(String, u32)>, name: &String) -> (res: Option<usize>)
    ensures
        match res {
            Some(k) => first_index(prop_names(entries@), name@) == Some(k as int) && k < entries@.len(),
            None => first_index(prop_names(entries@), name@) is None,
        },
{
    let ghost ids = prop_names(entries@);
    let n = entries.len();
    let mut i: usize = 0;
    while i < n
        invariant
            n == entries@.len(),
            ids == prop_names(entries@),
            i <= n,
            first_index(ids, name@) == crate::traits::first_from(ids, name@, i as int),
        decreases n - i,
    {
        if entries[i].0 == *name {
            return Some(i);
        }
        i = i + 1;
    }
    None
}

impl DrmPropertyCache {
    /// An empty cache.
    pub fn new() -> (res: Self)
        ensures
            res.props@.len() == 0,
    {
        DrmPropertyCache { props: Vec::new() }
    }

    /// The property id cached for connector `conn` under `name`.
    pub fn find(&self, conn: u32, name: &str) -> (res: Option<u32>)
        ensures
            res == prop_lookup(self.props@, conn, name@),
    {
        match find_u32(&self.props, conn) {
            None => None,
            Some(c) => {
                let key = String::from_str(name);
                match find_name(&self.props[c].1, &key) {
                    None => None,
                    Some(k) => Some(self.props[c].1[k].1),
                }
            },
        }
    }

    /// Records property `prop` of connector `conn` under `name`, replacing
    /// an earlier entry of the same connector and name.
    pub fn insert(&mut self, conn: u32, name: String, prop: u32)
        requires
            cache_ids_nonzero(old(self).props@),
            prop != 0,
        ensures
            cache_ids_nonzero(final(self).props@),
            prop_lookup(final(self).props@, conn, name@) == Some(prop),
            forall|c: u32, n: Seq<char>|
                !(c == conn && n == name@) ==> prop_lookup(final(self).props@, c, n) == prop_lookup(
                    old(self).props@,
                    c,
                    n,
                ),
    {
        let ghost old_props = self.props@;
        proof {
            lemma_first_index(cache_connectors(old_props), conn);
        }
        match find_u32(&self.props, conn) {
            None => {
                let ghost nm = name@;
                let mut entries: Vec<(String, u32)> = Vec::new();
                entries.push((name, prop));
                self.props.push((conn, entries));
                proof {
                    let ps = self.props@;
                    assert(cache_connectors(ps) =~= cache_connectors(old_props).push(conn));
                    assert forall|c: u32, n: Seq<char>| #![all_triggers] true implies
                        prop_lookup(ps, c, n) == (if c == conn && n == nm { Some(prop) } else {
                            prop_lookup(old_props, c, n)
                        }) by {
                        crate::traits::lemma_first_index_push(cache_connectors(old_props), conn, c);
                        lemma_first_index(cache_connectors(old_props), c);
                        if let Some(k) = first_index(cache_connectors(old_props), c) {
                            assert(ps[k] == old_props[k]);
                        }
                        if c == conn {
                            let entries = ps[old_props.len() as int].1@;
                            assert(prop_names(entries) =~= seq![nm]);
                            crate::traits::lemma_first_index_push(Seq::<Seq<char>>::empty(), nm, n);
                            assert(seq![nm] =~= Seq::<Seq<char>>::empty().push(nm));
                        }
                    }
                }
            },
            Some(ci) => {
                let ghost nm = name@;
                let ghost old_entries = self.props@[ci as int].1@;
                proof {
                    lemma_first_index(prop_names(old_entries), nm);
                }
                match find_name(&self.props[ci].1, &name) {
                    Some(k) => {
                        self.props[ci].1[k].1 = prop;
                    },
                    None => {
                        self.props[ci].1.push((name, prop));
                    },
                }
                let ghost new_entries = self.props@[ci as int].1@;
                proof {
                    let ps = self.props@;
                    assert(cache_connectors(ps) =~= cache_connectors(old_props));
                    assert(prop_names(new_entries) =~= if prop_names(old_entries).contains(nm) {
                        prop_names(old_entries)
                    } else {
                        prop_names(old_entries).push(nm)
                    }) by {
                        if first_index(prop_names(old_entries), nm) is None {
                            assert(!prop_names(old_entries).contains(nm));
                        } else {
                            let k = first_index(prop_names(old_entries), nm)->0;
                            assert(prop_names(old_entries)[k] == nm);
                        }
                    }
                    assert forall|c: u32, n: Seq<char>| #![all_triggers] true implies
                        prop_lookup(ps, c, n) == (if c == conn && n == nm { Some(prop) } else {
                            prop_lookup(old_props, c, n)
                        }) by {
                        lemma_first_index(cache_connectors(ps), c);
                        if c == conn {
                            lemma_first_index(prop_names(new_entries), n);
                            lemma_first_index(prop_names(old_entries), n);
                            if first_index(prop_names(old_entries), nm) is None {
                                assert(prop_names(new_entries) =~= prop_names(old_entries).push(nm));
                                crate::traits::lemma_first_index_push(prop_names(old_entries), nm, n);
                            } else {
                                assert(prop_names(new_entries) =~= prop_names(old_entries));
                            }
                        }
                    }
                    assert forall|c: int, k: int|
                        0 <= c < ps.len() && 0 <= k < ps[c].1@.len() implies #[trigger] ps[c].1@[k].1 != 0 by {
                        if c != ci as int {
                            assert(ps[c] == old_props[c]);
                        }
                    }
                }
            },
        }
    }
}

/// `AtomicModeReq` of the drm crate: the property writes staged for one
/// atomic commit.
#[verifier::external_type_specification]
#[verifier::external_body]
pub struct ExAtomicModeReq(AtomicModeReq);

/// The property writes an atomic request holds: for each (object id,
/// property id) the value last written.
pub uninterp spec fn atomic_req_props(req: AtomicModeReq) -> Map<(u32, u32), u64>;

/// No property writes at all.
pub open spec fn no_props() -> Map<(u32, u32), u64> {
    Map::empty()
}

/// `AtomicModeReq::new`: a request with no property writes.
#[verifier::external_body]
pub(crate) fn atomic_req_new() -> (res: AtomicModeReq)
    ensures
        atomic_req_props(res) == no_props(),
{
    AtomicModeReq::new()
}

/// `AtomicModeReq::add_raw_property`: records `value` for property `prop`
/// of object `obj`, replacing a value recorded earlier for the same pair
/// (the crate keeps objects and their properties in sorted vectors and
/// overwrites on an exact match). Object and property ids are nonzero, as
/// the crate's handle types are. Not stated: the per-object property count
/// is a `u32`, so more than 2^32 writes to one request are out of scope.
#[verifier::external_body]
pub(crate) fn atomic_req_add(req: &mut AtomicModeReq, obj: u32, prop: u32, value: u64)
    requires
        obj != 0,
        prop != 0,
    ensures
        atomic_req_props(*final(req)) == atomic_req_props(*old(req)).insert((obj, prop), value),
{
    let o: drm::control::RawResourceHandle = drm::control::from_u32(obj).unwrap();
    let p: drm::control::property::Handle = drm::control::from_u32(prop).unwrap();
    req.add_raw_property(o, p, value)
}

} // verus!
