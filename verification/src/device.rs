use vstd::prelude::*;

use dashmap::DashMap;

use crate::numeric::RealBits;
use crate::handlers::{ApiResponse, STATUS_CREATED, STATUS_NOT_FOUND, STATUS_OK};

verus! {

/// A deployed urn listening device: where it is buried and the geometry of
/// its resonating urn.
#[derive(Debug)]
pub struct UrnDevice {
    pub device_id: u32,
    pub device_name: String,
    pub deployment_x: RealBits,
    pub deployment_y: RealBits,
    pub deployment_z: RealBits,
    pub urn_volume: RealBits,
    pub neck_radius: RealBits,
    pub neck_length: RealBits,
}

impl UrnDevice {
    /// A field-by-field copy of the device.
    pub fn duplicate(&self) -> (r: Self)
        ensures
            r == *self,
    {
        UrnDevice {
            device_id: self.device_id,
            device_name: self.device_name.clone(),
            deployment_x: self.deployment_x,
            deployment_y: self.deployment_y,
            deployment_z: self.deployment_z,
            urn_volume: self.urn_volume,
            neck_radius: self.neck_radius,
            neck_length: self.neck_length,
        }
    }
}

/// The body of a device registration request.
#[derive(Debug)]
pub struct CreateDeviceBody {
    pub device_id: u32,
    pub device_name: String,
    pub deployment_x: RealBits,
    pub deployment_y: RealBits,
    pub deployment_z: RealBits,
    pub urn_volume: RealBits,
    pub neck_radius: RealBits,
    pub neck_length: RealBits,
}

/// The device that a registration request describes.
pub open spec fn device_from_body(body: CreateDeviceBody) -> UrnDevice {
    UrnDevice {
        device_id: body.device_id,
        device_name: body.device_name,
        deployment_x: body.deployment_x,
        deployment_y: body.deployment_y,
        deployment_z: body.deployment_z,
        urn_volume: body.urn_volume,
        neck_radius: body.neck_radius,
        neck_length: body.neck_length,
    }
}

/// The device a registration describes carries each field of the request
/// under the same name: id, name, the three deployment coordinates, the urn
/// volume, the neck radius and the neck length.
pub proof fn law_device_from_body(body: CreateDeviceBody)
    ensures
        device_from_body(body).device_id == body.device_id,
        device_from_body(body).device_name == body.device_name,
        device_from_body(body).deployment_x == body.deployment_x,
        device_from_body(body).deployment_y == body.deployment_y,
        device_from_body(body).deployment_z == body.deployment_z,
        device_from_body(body).urn_volume == body.urn_volume,
        device_from_body(body).neck_radius == body.neck_radius,
        device_from_body(body).neck_length == body.neck_length,
{
}

#[verifier::external_type_specification]
#[verifier::external_body]
#[verifier::reject_recursive_types(K)]
#[verifier::reject_recursive_types(V)]
#[verifier::reject_recursive_types(S)]
pub struct ExDashMap<K, V, S>(DashMap<K, V, S>);

/// The concurrent map in which the registry keeps its devices.
pub type DeviceMap = DashMap<u32, UrnDevice>;

/// What a concurrent device map holds: each key with the device stored
/// under it.
pub uninterp spec fn dashmap_entries(m: DeviceMap) -> Map<u32, UrnDevice>;

/// Calls `DashMap::new`: the new map holds nothing.
#[verifier::external_body]
fn dashmap_new() -> (r: DeviceMap)
    ensures
        dashmap_entries(r).dom() == Set::<u32>::empty(),
{
    DashMap::new()
}

/// Calls `DashMap::insert`: afterwards `key` maps to `value` and every other
/// entry is unchanged; the value that `key` held before, if any, is returned.
#[verifier::external_body]
fn dashmap_insert(m: &mut DeviceMap, key: u32, value: UrnDevice) -> (prev: Option<
    UrnDevice,
>)
    ensures
        dashmap_entries(*final(m)) == dashmap_entries(*old(m)).insert(key, value),
        prev == (if dashmap_entries(*old(m)).contains_key(key) {
            Some(dashmap_entries(*old(m))[key])
        } else {
            None
        }),
{
    m.insert(key, value)
}

/// Calls `DashMap::get` and copies the device out of the returned guard:
/// the device stored under `key`, or `None` when there is none.
#[verifier::external_body]
fn dashmap_get(m: &DeviceMap, key: u32) -> (r: Option<UrnDevice>)
    ensures
        r == (if dashmap_entries(*m).contains_key(key) {
            Some(dashmap_entries(*m)[key])
        } else {
            None
        }),
{
    m.get(&key).map(|entry| entry.value().duplicate())
}

/// Calls `DashMap::iter` and copies each visited entry out as a pair: every
/// entry of the map appears exactly once, in an order the map chooses.
#[verifier::external_body]
fn dashmap_entry_list(m: &DeviceMap) -> (r: Vec<(u32, UrnDevice)>)
    ensures
        forall|i: int|
            0 <= i < r@.len() ==> dashmap_entries(*m).contains_key(#[trigger] r@[i].0)
                && dashmap_entries(*m)[r@[i].0] == r@[i].1,
        forall|i: int, j: int|
            0 <= i < j < r@.len() ==> #[trigger] r@[i].0 != #[trigger] r@[j].0,
        forall|k: u32|
            dashmap_entries(*m).contains_key(k) ==> exists|i: int|
                0 <= i < r@.len() && #[trigger] r@[i].0 == k,
{
    m.iter().map(|entry| (*entry.key(), entry.value().duplicate())).collect()
}

/// The devices known to the service, each stored under its own id.
pub struct DeviceRegistry {
    devices: DeviceMap,
}

impl View for DeviceRegistry {
    type V = Map<u32, UrnDevice>;

    closed spec fn view(&self) -> Map<u32, UrnDevice> {
        dashmap_entries(self.devices)
    }
}

/// Every device of the registry is stored under its own id.
pub open spec fn keyed_by_id(m: Map<u32, UrnDevice>) -> bool {
    forall|id: u32| #[trigger] m.contains_key(id) ==> m[id].device_id == id
}

/// `ds` lists the devices of `m`: each exactly once, in some order.
pub open spec fn lists_exactly(m: Map<u32, UrnDevice>, ds: Seq<UrnDevice>) -> bool {
    &&& forall|i: int|
        0 <= i < ds.len() ==> m.contains_key(#[trigger] ds[i].device_id) && m[ds[i].device_id]
            == ds[i]
    &&& forall|i: int, j: int|
        0 <= i < j < ds.len() ==> #[trigger] ds[i].device_id != #[trigger] ds[j].device_id
    &&& forall|id: u32|
        #[trigger] m.contains_key(id) ==> exists|i: int|
            0 <= i < ds.len() && #[trigger] ds[i].device_id == id
}

/// The registry after registering the devices of `ds` in order, each under
/// its own id; a later device replaces an earlier one with the same id.
pub open spec fn registered_all(m: Map<u32, UrnDevice>, ds: Seq<UrnDevice>) -> Map<u32, UrnDevice>
    decreases ds.len(),
{
    if ds.len() == 0 {
        m
    } else {
        registered_all(m, ds.drop_last()).insert(ds.last().device_id, ds.last())
    }
}

/// The device registered under `id`, if any.
pub open spec fn device_lookup(m: Map<u32, UrnDevice>, id: u32) -> Option<UrnDevice> {
    if m.contains_key(id) {
        Some(m[id])
    } else {
        None
    }
}

/// A listing names as many devices as the registry holds, and the registry
/// holds finitely many.
pub proof fn lemma_listing_counts(m: Map<u32, UrnDevice>, ds: Seq<UrnDevice>)
    requires
        lists_exactly(m, ds),
    ensures
        m.dom().finite(),
        ds.len() == m.dom().len(),
{
    let ids = ds.map_values(|d: UrnDevice| d.device_id);
    assert(ids.no_duplicates()) by {
        assert forall|i: int, j: int| 0 <= i < ids.len() && 0 <= j < ids.len() && i != j implies ids[i]
            != ids[j] by {
            if i < j {
                assert(ds[i].device_id != ds[j].device_id);
            } else {
                assert(ds[j].device_id != ds[i].device_id);
            }
        }
    }
    assert(ids.to_set() =~= m.dom()) by {
        assert forall|id: u32| m.dom().contains(id) implies ids.to_set().contains(id) by {
            let i = choose|i: int| 0 <= i < ds.len() && #[trigger] ds[i].device_id == id;
            assert(ids[i] == id);
        }
        assert forall|id: u32| ids.to_set().contains(id) implies m.dom().contains(id) by {
            let i = choose|i: int| 0 <= i < ids.len() && ids[i] == id;
            assert(m.contains_key(ds[i].device_id));
        }
    }
    ids.unique_seq_to_set();
    vstd::seq_lib::seq_to_set_is_finite(ids);
}

/// Reading after writing: once a device is registered under its id, a
/// lookup of that id finds exactly that device, and lookups of every other
/// id are unaffected.
pub proof fn law_lookup_after_register(m: Map<u32, UrnDevice>, device: UrnDevice, other: u32)
    ensures
        device_lookup(m.insert(device.device_id, device), device.device_id) == Some(device),
        other != device.device_id ==> device_lookup(m.insert(device.device_id, device), other)
            == device_lookup(m, other),
        keyed_by_id(m) ==> keyed_by_id(m.insert(device.device_id, device)),
{
}

/// Registering a device under a new id lists one more device; registering
/// under an id already in use lists as many as before.
pub proof fn law_listing_after_register(
    m: Map<u32, UrnDevice>,
    device: UrnDevice,
    before: Seq<UrnDevice>,
    after: Seq<UrnDevice>,
)
    requires
        lists_exactly(m, before),
        lists_exactly(m.insert(device.device_id, device), after),
    ensures
        after.len() == before.len() + (if m.contains_key(device.device_id) {
            0int
        } else {
            1int
        }),
{
    lemma_listing_counts(m, before);
    lemma_listing_counts(m.insert(device.device_id, device), after);
    assert(m.insert(device.device_id, device).dom() =~= m.dom().insert(device.device_id));
}

/// After registering the devices of `ds` in order, each device whose id no
/// later device reuses is found under its id; ids not among `ds` keep what
/// they had.
pub proof fn law_registered_all(m: Map<u32, UrnDevice>, ds: Seq<UrnDevice>, i: int, other: u32)
    requires
        0 <= i < ds.len(),
        forall|j: int| i < j < ds.len() ==> #[trigger] ds[j].device_id != ds[i].device_id,
    ensures
        device_lookup(registered_all(m, ds), ds[i].device_id) == Some(ds[i]),
        (forall|j: int| 0 <= j < ds.len() ==> #[trigger] ds[j].device_id != other) ==> device_lookup(
            registered_all(m, ds),
            other,
        ) == device_lookup(m, other),
    decreases ds.len(),
{
    lemma_registered_all_others(m, ds, other);
    if i == ds.len() - 1 {
    } else {
        let rest = ds.drop_last();
        assert forall|j: int| i < j < rest.len() implies #[trigger] rest[j].device_id
            != rest[i].device_id by {
            assert(rest[j] == ds[j]);
        }
        law_registered_all(m, rest, i, other);
        assert(rest[i] == ds[i]);
        assert(ds.last().device_id != ds[i].device_id);
    }
}

proof fn lemma_registered_all_others(m: Map<u32, UrnDevice>, ds: Seq<UrnDevice>, other: u32)
    ensures
        (forall|j: int| 0 <= j < ds.len() ==> #[trigger] ds[j].device_id != other) ==> device_lookup(
            registered_all(m, ds),
            other,
        ) == device_lookup(m, other),
    decreases ds.len(),
{
    if ds.len() > 0 {
        let rest = ds.drop_last();
        lemma_registered_all_others(m, rest, other);
        if forall|j: int| 0 <= j < ds.len() ==> #[trigger] ds[j].device_id != other {
            assert forall|j: int| 0 <= j < rest.len() implies #[trigger] rest[j].device_id != other by {
                assert(rest[j] == ds[j]);
            }
            assert(ds[ds.len() - 1].device_id != other);
        }
    }
}

impl DeviceRegistry {
    /// Every device of the registry is stored under its own id.
    pub open spec fn well_formed(&self) -> bool {
        keyed_by_id(self@)
    }

    /// An empty registry.
    pub fn new() -> (r: Self)
        ensures
            r@ == Map::<u32, UrnDevice>::empty(),
            r.well_formed(),
    {
        let r = DeviceRegistry { devices: dashmap_new() };
        assert(r@ =~= Map::<u32, UrnDevice>::empty());
        r
    }

    /// Registers `device` under its id, replacing any device registered under
    /// that id before; returns the replaced device.
    pub fn register(&mut self, device: UrnDevice) -> (prev: Option<UrnDevice>)
        requires
            old(self).well_formed(),
        ensures
            final(self).well_formed(),
            final(self)@ == old(self)@.insert(device.device_id, device),
            prev == device_lookup(old(self)@, device.device_id),
    {
        let id = device.device_id;
        dashmap_insert(&mut self.devices, id, device)
    }

    /// Registers the devices of `devices` in order.
    pub fn register_all(&mut self, devices: Vec<UrnDevice>)
        requires
            old(self).well_formed(),
        ensures
            final(self).well_formed(),
            final(self)@ == registered_all(old(self)@, devices@),
    {
        let ghost start = self@;
        let mut i: usize = 0;
        while i < devices.len()
            invariant
                i <= devices@.len(),
                self@ == registered_all(start, devices@.take(i as int)),
                self.well_formed(),
            decreases devices@.len() - i,
        {
            assert(devices@.take(i + 1).drop_last() =~= devices@.take(i as int));
            self.register(devices[i].duplicate());
            i = i + 1;
        }
        assert(devices@.take(devices@.len() as int) =~= devices@);
    }

    /// The device registered under `id`, if any.
    pub fn lookup(&self, id: u32) -> (r: Option<UrnDevice>)
        requires
            self.well_formed(),
        ensures
            r == device_lookup(self@, id),
            r matches Some(d) ==> d.device_id == id,
    {
        dashmap_get(&self.devices, id)
    }

    /// All registered devices, each exactly once, in an unspecified order.
    pub fn devices(&self) -> (r: Vec<UrnDevice>)
        requires
            self.well_formed(),
        ensures
            lists_exactly(self@, r@),
    {
        let entries = dashmap_entry_list(&self.devices);
        let mut out: Vec<UrnDevice> = Vec::new();
        let mut i: usize = 0;
        while i < entries.len()
            invariant
                i <= entries@.len(),
                out@.len() == i,
                keyed_by_id(self@),
                forall|j: int|
                    0 <= j < entries@.len() ==> self@.contains_key(#[trigger] entries@[j].0)
                        && self@[entries@[j].0] == entries@[j].1,
                forall|j: int| 0 <= j < i ==> #[trigger] out@[j] == entries@[j].1,
            decreases entries@.len() - i,
        {
            out.push(entries[i].1.duplicate());
            i = i + 1;
        }
        proof {
            assert forall|j: int| 0 <= j < out@.len() implies #[trigger] out@[j].device_id
                == entries@[j].0 by {
                assert(self@.contains_key(entries@[j].0));
            }
            assert forall|id: u32| #[trigger] self@.contains_key(id) implies exists|j: int|
                0 <= j < out@.len() && #[trigger] out@[j].device_id == id by {
                let j = choose|j: int| 0 <= j < entries@.len() && #[trigger] entries@[j].0 == id;
                assert(out@[j].device_id == entries@[j].0);
            }
            assert forall|a: int, b: int| 0 <= a < b < out@.len() implies #[trigger] out@[a].device_id
                != #[trigger] out@[b].device_id by {
                assert(out@[a].device_id == entries@[a].0);
                assert(out@[b].device_id == entries@[b].0);
            }
        }
        out
    }
}

} // verus!
